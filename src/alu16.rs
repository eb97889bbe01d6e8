//! The 16-bit arithmetic group.

use vstd::prelude::*;
use crate::cpu::{b2i, flag_c, flag_pv, flag_s, flag_z, pack_flags, Cpu, CpuError, CpuView, Register16, outcome};
use crate::load::{wide, with_wide, Wide};
use crate::registers::pair_of;

verus! {

/// An operation on a 16-bit register.
#[derive(Debug, Clone, Copy, PartialEq, Eq, Structural)]
pub enum WideOp {
    /// ADD: S, Z and PV are kept.
    Add,
    /// ADC: all flags are set from the result.
    Adc,
    /// SBC: all flags are set from the result.
    Sbc,
    /// INC: no flag changes.
    Inc,
    /// DEC: no flag changes.
    Dec,
}

/// The value of a 16-bit operation; INC and DEC ignore `y`.
pub open spec fn wide_value(op: WideOp, x: u16, y: u16, f: u8) -> u16 {
    match op {
        WideOp::Add => ((x + y) % 0x10000) as u16,
        WideOp::Adc => ((x + y + b2i(flag_c(f))) % 0x10000) as u16,
        WideOp::Sbc => ((x - y - b2i(flag_c(f))) % 0x10000) as u16,
        WideOp::Inc => ((x + 1) % 0x10000) as u16,
        WideOp::Dec => ((x - 1) % 0x10000) as u16,
    }
}

/// The flags after a 16-bit operation: carries out of bit 15, half carries out of bit 11.
pub open spec fn wide_flags(op: WideOp, x: u16, y: u16, f: u8) -> u8 {
    let c = b2i(flag_c(f));
    let r = wide_value(op, x, y, f);
    match op {
        WideOp::Add => pack_flags(
            f,
            flag_s(f),
            flag_z(f),
            x % 0x1000 + y % 0x1000 >= 0x1000,
            flag_pv(f),
            false,
            x + y >= 0x10000,
        ),
        WideOp::Adc => pack_flags(
            f,
            r >= 0x8000,
            r == 0,
            x % 0x1000 + y % 0x1000 + c >= 0x1000,
            (x >= 0x8000) == (y >= 0x8000) && (r >= 0x8000) != (x >= 0x8000),
            false,
            x + y + c >= 0x10000,
        ),
        WideOp::Sbc => pack_flags(
            f,
            r >= 0x8000,
            r == 0,
            x % 0x1000 < y % 0x1000 + c,
            (x >= 0x8000) != (y >= 0x8000) && (r >= 0x8000) != (x >= 0x8000),
            true,
            x < y + c,
        ),
        WideOp::Inc => f,
        WideOp::Dec => f,
    }
}

/// The operand named by bits 5..4 of an opcode, where 0b10 names `own` (HL, IX or IY).
pub open spec fn operand_pair(field: u8, own: Wide) -> Wide {
    if field == 2 {
        own
    } else {
        Wide::Pair(pair_of(field, false))
    }
}

/// A 16-bit operation on `dest` with operand `src`, then PC moves on.
pub open spec fn wide_step(s: CpuView, op: WideOp, dest: Wide, src: Wide, len: int) -> Result<
    CpuView,
    CpuError,
> {
    if s.len() == 0 {
        Err(CpuError::AddressOutOfRange)
    } else {
        let x = wide(s, dest);
        let y = wide(s, src);
        Ok(with_wide(s, dest, wide_value(op, x, y, s.f)).with_f(wide_flags(op, x, y, s.f)).with_pc(
            s.next_pc(len),
        ))
    }
}

impl Cpu {
    /// The operand named by bits 5..4 of an opcode, where 0b10 names `own`.
    pub fn operand_pair(opcode: u8, own: Wide) -> (r: Wide)
        ensures
            r == operand_pair(opcode / 16 % 4, own),
    {
        if opcode / 16 % 4 == 2 {
            own
        } else {
            Wide::Pair(Self::select_reg16(opcode))
        }
    }

    /// A 16-bit operation: the value and the flags.
    fn wide_op(op: WideOp, x: u16, y: u16, f: u8, c: bool) -> (r: (u16, u8))
        requires
            c == flag_c(f),
        ensures
            r.0 == wide_value(op, x, y, f),
            r.1 == wide_flags(op, x, y, f),
    {
        let ci: u32 = if c { 1 } else { 0 };
        let (x32, y32) = (x as u32, y as u32);
        match op {
            WideOp::Add => {
                let r = ((x32 + y32) % 0x10000) as u16;
                let h = x32 % 0x1000 + y32 % 0x1000 >= 0x1000;
                (r, Self::pack(f, f >= 128, (f / 64) % 2 == 1, h, (f / 4) % 2 == 1, false, x32 + y32 >= 0x10000))
            },
            WideOp::Adc => {
                let r = ((x32 + y32 + ci) % 0x10000) as u16;
                let h = x32 % 0x1000 + y32 % 0x1000 + ci >= 0x1000;
                let pv = (x >= 0x8000) == (y >= 0x8000) && (r >= 0x8000) != (x >= 0x8000);
                (r, Self::pack(f, r >= 0x8000, r == 0, h, pv, false, x32 + y32 + ci >= 0x10000))
            },
            WideOp::Sbc => {
                let r = ((x32 + 0x20000 - y32 - ci) % 0x10000) as u16;
                let h = x32 % 0x1000 < y32 % 0x1000 + ci;
                let pv = (x >= 0x8000) != (y >= 0x8000) && (r >= 0x8000) != (x >= 0x8000);
                (r, Self::pack(f, r >= 0x8000, r == 0, h, pv, true, x32 < y32 + ci))
            },
            WideOp::Inc => (((x32 + 1) % 0x10000) as u16, f),
            WideOp::Dec => (((x32 + 0xffff) % 0x10000) as u16, f),
        }
    }

    /// Runs a 16-bit operation on `dest` with operand `src`.
    pub fn wide_instr(&mut self, op: WideOp, dest: Wide, src: Wide, len: u16) -> (r: Result<(), CpuError>)
        ensures
            outcome(old(self)@, final(self)@, r, wide_step(old(self)@, op, dest, src, len as int)),
    {
        if self.memory.len() == 0 {
            return Err(CpuError::AddressOutOfRange);
        }
        let x = self.read_wide(dest);
        let y = self.read_wide(src);
        let (v, f) = Self::wide_op(op, x, y, self.f, self.get_c());
        self.write_wide(dest, v);
        self.f = f;
        self.incr_pc(len);
        Ok(())
    }

    /// ADD HL, ss
    pub fn add_hl_ss(&mut self) -> (r: Result<(), CpuError>)
        ensures
            outcome(old(self)@, final(self)@, r, wide_step(old(self)@, WideOp::Add, Wide::Pair(Register16::hl), operand_pair(old(self)@.fetch(0) / 16 % 4, Wide::Pair(Register16::hl)), 1)),
    {
        if self.memory.len() == 0 {
            return Err(CpuError::AddressOutOfRange);
        }
        let src = Self::operand_pair(self.memory_at_pc(0), Wide::Pair(Register16::hl));
        self.wide_instr(WideOp::Add, Wide::Pair(Register16::hl), src, 1)
    }

    /// ADC HL, ss
    pub fn adc_hl_ss(&mut self) -> (r: Result<(), CpuError>)
        ensures
            outcome(old(self)@, final(self)@, r, wide_step(old(self)@, WideOp::Adc, Wide::Pair(Register16::hl), operand_pair(old(self)@.fetch(1) / 16 % 4, Wide::Pair(Register16::hl)), 2)),
    {
        if self.memory.len() == 0 {
            return Err(CpuError::AddressOutOfRange);
        }
        let src = Self::operand_pair(self.memory_at_pc(1), Wide::Pair(Register16::hl));
        self.wide_instr(WideOp::Adc, Wide::Pair(Register16::hl), src, 2)
    }

    /// SBC HL, ss
    pub fn sbc_hl_ss(&mut self) -> (r: Result<(), CpuError>)
        ensures
            outcome(old(self)@, final(self)@, r, wide_step(old(self)@, WideOp::Sbc, Wide::Pair(Register16::hl), operand_pair(old(self)@.fetch(1) / 16 % 4, Wide::Pair(Register16::hl)), 2)),
    {
        if self.memory.len() == 0 {
            return Err(CpuError::AddressOutOfRange);
        }
        let src = Self::operand_pair(self.memory_at_pc(1), Wide::Pair(Register16::hl));
        self.wide_instr(WideOp::Sbc, Wide::Pair(Register16::hl), src, 2)
    }

    /// ADD IX, pp
    pub fn add_ix_pp(&mut self) -> (r: Result<(), CpuError>)
        ensures
            outcome(old(self)@, final(self)@, r, wide_step(old(self)@, WideOp::Add, Wide::Ix, operand_pair(old(self)@.fetch(1) / 16 % 4, Wide::Ix), 2)),
    {
        if self.memory.len() == 0 {
            return Err(CpuError::AddressOutOfRange);
        }
        let src = Self::operand_pair(self.memory_at_pc(1), Wide::Ix);
        self.wide_instr(WideOp::Add, Wide::Ix, src, 2)
    }

    /// ADD IY, rr
    pub fn add_iy_rr(&mut self) -> (r: Result<(), CpuError>)
        ensures
            outcome(old(self)@, final(self)@, r, wide_step(old(self)@, WideOp::Add, Wide::Iy, operand_pair(old(self)@.fetch(1) / 16 % 4, Wide::Iy), 2)),
    {
        if self.memory.len() == 0 {
            return Err(CpuError::AddressOutOfRange);
        }
        let src = Self::operand_pair(self.memory_at_pc(1), Wide::Iy);
        self.wide_instr(WideOp::Add, Wide::Iy, src, 2)
    }

    /// INC ss
    pub fn inc_ss(&mut self) -> (r: Result<(), CpuError>)
        ensures
            outcome(old(self)@, final(self)@, r, wide_step(old(self)@, WideOp::Inc, operand_pair(old(self)@.fetch(0) / 16 % 4, Wide::Pair(Register16::hl)), operand_pair(old(self)@.fetch(0) / 16 % 4, Wide::Pair(Register16::hl)), 1)),
    {
        if self.memory.len() == 0 {
            return Err(CpuError::AddressOutOfRange);
        }
        let dest = Self::operand_pair(self.memory_at_pc(0), Wide::Pair(Register16::hl));
        self.wide_instr(WideOp::Inc, dest, dest, 1)
    }

    /// INC IX
    pub fn inc_ix(&mut self) -> (r: Result<(), CpuError>)
        ensures
            outcome(old(self)@, final(self)@, r, wide_step(old(self)@, WideOp::Inc, Wide::Ix, Wide::Ix, 2)),
    {
        if self.memory.len() == 0 {
            return Err(CpuError::AddressOutOfRange);
        }
        self.wide_instr(WideOp::Inc, Wide::Ix, Wide::Ix, 2)
    }

    /// INC IY
    pub fn inc_iy(&mut self) -> (r: Result<(), CpuError>)
        ensures
            outcome(old(self)@, final(self)@, r, wide_step(old(self)@, WideOp::Inc, Wide::Iy, Wide::Iy, 2)),
    {
        if self.memory.len() == 0 {
            return Err(CpuError::AddressOutOfRange);
        }
        self.wide_instr(WideOp::Inc, Wide::Iy, Wide::Iy, 2)
    }

    /// DEC ss
    pub fn dec_ss(&mut self) -> (r: Result<(), CpuError>)
        ensures
            outcome(old(self)@, final(self)@, r, wide_step(old(self)@, WideOp::Dec, operand_pair(old(self)@.fetch(0) / 16 % 4, Wide::Pair(Register16::hl)), operand_pair(old(self)@.fetch(0) / 16 % 4, Wide::Pair(Register16::hl)), 1)),
    {
        if self.memory.len() == 0 {
            return Err(CpuError::AddressOutOfRange);
        }
        let dest = Self::operand_pair(self.memory_at_pc(0), Wide::Pair(Register16::hl));
        self.wide_instr(WideOp::Dec, dest, dest, 1)
    }

    /// DEC IX
    pub fn dec_ix(&mut self) -> (r: Result<(), CpuError>)
        ensures
            outcome(old(self)@, final(self)@, r, wide_step(old(self)@, WideOp::Dec, Wide::Ix, Wide::Ix, 2)),
    {
        if self.memory.len() == 0 {
            return Err(CpuError::AddressOutOfRange);
        }
        self.wide_instr(WideOp::Dec, Wide::Ix, Wide::Ix, 2)
    }

    /// DEC IY
    pub fn dec_iy(&mut self) -> (r: Result<(), CpuError>)
        ensures
            outcome(old(self)@, final(self)@, r, wide_step(old(self)@, WideOp::Dec, Wide::Iy, Wide::Iy, 2)),
    {
        if self.memory.len() == 0 {
            return Err(CpuError::AddressOutOfRange);
        }
        self.wide_instr(WideOp::Dec, Wide::Iy, Wide::Iy, 2)
    }
}

} // verus!

//! The rotate and shift group, and the bit set, reset and test group.

use vstd::prelude::*;
use crate::cpu::{b2i, flag_c, flag_pv, flag_s, flag_z, has_bit, pack_flags, parity_even, with_bit, Cpu, CpuError, CpuView, outcome};
use crate::operand::{loc_value, target_loc, with_loc, Target};

verus! {

/// A rotate or shift of one byte.
#[derive(Debug, Clone, Copy, PartialEq, Eq, Structural)]
pub enum ShiftOp {
    /// Rotate left; bit 7 goes to bit 0 and to the carry.
    Rlc,
    /// Rotate right; bit 0 goes to bit 7 and to the carry.
    Rrc,
    /// Rotate left through the carry.
    Rl,
    /// Rotate right through the carry.
    Rr,
    /// Shift left; bit 0 becomes 0.
    Sla,
    /// Shift right; bit 7 is kept.
    Sra,
    /// Shift right; bit 7 becomes 0.
    Srl,
}

pub open spec fn shifts_left(op: ShiftOp) -> bool {
    op == ShiftOp::Rlc || op == ShiftOp::Rl || op == ShiftOp::Sla
}

/// The byte after a rotate or shift of `v`, with `cin` the carry flag before it.
pub open spec fn shift_value(op: ShiftOp, v: u8, cin: bool) -> u8 {
    match op {
        ShiftOp::Rlc => ((v * 2) % 256 + v / 128) as u8,
        ShiftOp::Rrc => (v / 2 + v % 2 * 128) as u8,
        ShiftOp::Rl => ((v * 2) % 256 + b2i(cin)) as u8,
        ShiftOp::Rr => (v / 2 + b2i(cin) * 128) as u8,
        ShiftOp::Sla => ((v * 2) % 256) as u8,
        ShiftOp::Sra => (v / 2 + v / 128 * 128) as u8,
        ShiftOp::Srl => (v / 2) as u8,
    }
}

/// The bit shifted out: bit 7 for a left move, bit 0 for a right one.
pub open spec fn shift_carry(op: ShiftOp, v: u8) -> bool {
    if shifts_left(op) {
        v >= 128
    } else {
        v % 2 == 1
    }
}

/// What a CB-prefixed rotate or shift does to the byte at a target.
pub open spec fn shift_step(s: CpuView, op: ShiftOp, t: Target, len: int) -> Result<CpuView, CpuError> {
    if s.len() == 0 {
        Err(CpuError::AddressOutOfRange)
    } else {
        match target_loc(s, t) {
            Ok(loc) => {
                let v = loc_value(s, loc);
                let r = shift_value(op, v, flag_c(s.f));
                let f = pack_flags(s.f, r >= 128, r == 0, false, parity_even(r), false, shift_carry(op, v));
                Ok(with_loc(s, loc, r).with_f(f).with_pc(s.next_pc(len)))
            },
            Err(e) => Err(e),
        }
    }
}

/// What RLCA, RRCA, RLA or RRA does: the accumulator moves, S, Z and PV are kept.
pub open spec fn shift_a_step(s: CpuView, op: ShiftOp) -> Result<CpuView, CpuError> {
    if s.len() == 0 {
        Err(CpuError::AddressOutOfRange)
    } else {
        let f = pack_flags(s.f, flag_s(s.f), flag_z(s.f), false, flag_pv(s.f), false, shift_carry(op, s.a));
        Ok(CpuView { a: shift_value(op, s.a, flag_c(s.f)), f, pc: s.next_pc(1), ..s })
    }
}

/// What RLD (`left`) or RRD does: nibbles rotate between A and the byte at HL.
pub open spec fn nibble_step(s: CpuView, left: bool) -> Result<CpuView, CpuError> {
    if s.len() == 0 || !s.readable(s.hl() as int) {
        Err(CpuError::AddressOutOfRange)
    } else {
        let m = s.byte(s.hl() as int);
        let a = if left { s.a / 16 * 16 + m / 16 } else { s.a / 16 * 16 + m % 16 };
        let mm = if left { m % 16 * 16 + s.a % 16 } else { s.a % 16 * 16 + m / 16 };
        let f = pack_flags(s.f, a >= 128, a == 0, false, parity_even(a as u8), false, flag_c(s.f));
        Ok(CpuView { a: a as u8, f, pc: s.next_pc(2), ..s.with_byte(s.hl() as int, mm as u8) })
    }
}

/// The one-bit mask for bit `b`.
pub open spec fn bit_mask(b: u8) -> u8 {
    if b == 0 {
        1
    } else if b == 1 {
        2
    } else if b == 2 {
        4
    } else if b == 3 {
        8
    } else if b == 4 {
        16
    } else if b == 5 {
        32
    } else if b == 6 {
        64
    } else {
        128
    }
}

/// The bit number in bits 5..3 of the opcode byte at offset `k`.
pub open spec fn bit_number(s: CpuView, k: int) -> u8 {
    (s.fetch(k) / 8 % 8) as u8
}

/// What BIT does: Z is set iff the bit is 0, H is set, N is reset, the rest is kept.
pub open spec fn bit_step(s: CpuView, t: Target, k: int, len: int) -> Result<CpuView, CpuError> {
    if s.len() == 0 {
        Err(CpuError::AddressOutOfRange)
    } else {
        match target_loc(s, t) {
            Ok(loc) => {
                let z = !has_bit(loc_value(s, loc), bit_mask(bit_number(s, k)));
                let f = pack_flags(s.f, flag_s(s.f), z, true, flag_pv(s.f), false, flag_c(s.f));
                Ok(s.with_f(f).with_pc(s.next_pc(len)))
            },
            Err(e) => Err(e),
        }
    }
}

/// What SET (`v` true) or RES does: one bit changes, the flags are kept.
pub open spec fn setres_step(s: CpuView, v: bool, t: Target, k: int, len: int) -> Result<CpuView, CpuError> {
    if s.len() == 0 {
        Err(CpuError::AddressOutOfRange)
    } else {
        match target_loc(s, t) {
            Ok(loc) => {
                let r = with_bit(loc_value(s, loc), bit_mask(bit_number(s, k)), v);
                Ok(with_loc(s, loc, r).with_pc(s.next_pc(len)))
            },
            Err(e) => Err(e),
        }
    }
}

/// A clear bit leaves room to set it without overflow.
proof fn lemma_bit_room(v: u8, m: u8)
    requires
        m == 1 || m == 2 || m == 4 || m == 8 || m == 16 || m == 32 || m == 64 || m == 128,
        (v / m) % 2 == 0,
    ensures
        v + m <= 255,
{
    if m == 1 {
    } else if m == 2 {
    } else if m == 4 {
    } else if m == 8 {
    } else if m == 16 {
    } else if m == 32 {
    } else if m == 64 {
    } else {
    }
}

impl Cpu {
    /// Rotates or shifts a byte; returns the new byte and the bit shifted out.
    pub fn shift(op: ShiftOp, v: u8, cin: bool) -> (r: (u8, bool))
        ensures
            r.0 == shift_value(op, v, cin),
            r.1 == shift_carry(op, v),
    {
        let c: u8 = if cin { 1 } else { 0 };
        let lo = v % 2;
        let hi = v / 128;
        let left: u8 = ((v as u16 * 2) % 256) as u8;
        match op {
            ShiftOp::Rlc => (left + hi, hi == 1),
            ShiftOp::Rrc => (v / 2 + lo * 128, lo == 1),
            ShiftOp::Rl => (left + c, hi == 1),
            ShiftOp::Rr => (v / 2 + c * 128, lo == 1),
            ShiftOp::Sla => (left, hi == 1),
            ShiftOp::Sra => (v / 2 + hi * 128, lo == 1),
            ShiftOp::Srl => (v / 2, lo == 1),
        }
    }

    /// Runs a CB-prefixed rotate or shift on the byte at a target.
    pub fn shift_instr(&mut self, op: ShiftOp, t: Target, len: u16) -> (r: Result<(), CpuError>)
        ensures
            outcome(old(self)@, final(self)@, r, shift_step(old(self)@, op, t, len as int)),
    {
        if self.memory.len() == 0 {
            return Err(CpuError::AddressOutOfRange);
        }
        match self.locate(t) {
            Ok(loc) => {
                let v = self.read_loc(loc);
                let (r, c) = Self::shift(op, v, self.get_c());
                self.write_loc(loc, r);
                self.set_flags(r >= 128, r == 0, false, Self::parity(r), false, c);
                self.incr_pc(len);
                Ok(())
            },
            Err(e) => Err(e),
        }
    }

    /// Runs RLCA, RRCA, RLA or RRA.
    pub fn shift_a_instr(&mut self, op: ShiftOp) -> (r: Result<(), CpuError>)
        ensures
            outcome(old(self)@, final(self)@, r, shift_a_step(old(self)@, op)),
    {
        if self.memory.len() == 0 {
            return Err(CpuError::AddressOutOfRange);
        }
        let (r, c) = Self::shift(op, self.a, self.get_c());
        let s = self.get_s();
        let z = self.get_z();
        let pv = self.get_pv();
        self.a = r;
        self.set_flags(s, z, false, pv, false, c);
        self.incr_pc(1);
        Ok(())
    }

    /// Runs RLD (`left`) or RRD.
    pub fn nibble_instr(&mut self, left: bool) -> (r: Result<(), CpuError>)
        ensures
            outcome(old(self)@, final(self)@, r, nibble_step(old(self)@, left)),
    {
        if self.memory.len() == 0 {
            return Err(CpuError::AddressOutOfRange);
        }
        let addr = self.read_hl() as usize;
        if addr >= self.memory.len() {
            return Err(CpuError::AddressOutOfRange);
        }
        let m = self.memory[addr];
        let a = if left { self.a / 16 * 16 + m / 16 } else { self.a / 16 * 16 + m % 16 };
        let mm = if left { m % 16 * 16 + self.a % 16 } else { self.a % 16 * 16 + m / 16 };
        self.store(addr, mm);
        self.a = a;
        self.set_flags(a >= 128, a == 0, false, Self::parity(a), false, self.get_c());
        self.incr_pc(2);
        Ok(())
    }

    /// The one-bit mask for the bit number in bits 5..3 of an opcode.
    pub fn operand_b(opcode: u8) -> (r: u8)
        ensures
            r == bit_mask(opcode / 8 % 8),
            r > 0,
    {
        match opcode / 8 % 8 {
            0 => 1,
            1 => 2,
            2 => 4,
            3 => 8,
            4 => 16,
            5 => 32,
            6 => 64,
            _ => 128,
        }
    }

    /// Runs BIT on the byte at a target; the bit number is in the opcode byte at offset `k`.
    pub fn bit_instr(&mut self, t: Target, k: u16, len: u16) -> (r: Result<(), CpuError>)
        ensures
            outcome(old(self)@, final(self)@, r, bit_step(old(self)@, t, k as int, len as int)),
    {
        if self.memory.len() == 0 {
            return Err(CpuError::AddressOutOfRange);
        }
        match self.locate(t) {
            Ok(loc) => {
                let v = self.read_loc(loc);
                let m = Self::operand_b(self.memory_at_pc(k));
                let z = (v / m) % 2 != 1;
                let s = self.get_s();
                let pv = self.get_pv();
                let c = self.get_c();
                self.set_flags(s, z, true, pv, false, c);
                self.incr_pc(len);
                Ok(())
            },
            Err(e) => Err(e),
        }
    }

    /// Runs SET (`value` true) or RES on the byte at a target.
    pub fn setres_instr(&mut self, value: bool, t: Target, k: u16, len: u16) -> (r: Result<(), CpuError>)
        ensures
            outcome(old(self)@, final(self)@, r, setres_step(old(self)@, value, t, k as int, len as int)),
    {
        if self.memory.len() == 0 {
            return Err(CpuError::AddressOutOfRange);
        }
        match self.locate(t) {
            Ok(loc) => {
                let v = self.read_loc(loc);
                let m = Self::operand_b(self.memory_at_pc(k));
                let set = (v / m) % 2 == 1;
                let r = if set == value {
                    v
                } else if value {
                    proof {
                        lemma_bit_room(v, m);
                    }
                    v + m
                } else {
                    assert(v >= m);
                    v - m
                };
                self.write_loc(loc, r);
                self.incr_pc(len);
                Ok(())
            },
            Err(e) => Err(e),
        }
    }
}

impl Cpu {
    /// RLC r
    pub fn rlc_r(&mut self) -> (r: Result<(), CpuError>)
        ensures
            outcome(old(self)@, final(self)@, r, shift_step(old(self)@, ShiftOp::Rlc, Target::RegLow, 2)),
    {
        self.shift_instr(ShiftOp::Rlc, Target::RegLow, 2)
    }

    /// RLC (HL)
    pub fn rlc_hli(&mut self) -> (r: Result<(), CpuError>)
        ensures
            outcome(old(self)@, final(self)@, r, shift_step(old(self)@, ShiftOp::Rlc, Target::Hl, 2)),
    {
        self.shift_instr(ShiftOp::Rlc, Target::Hl, 2)
    }

    /// RLC (IX+d)
    pub fn rlc_ixdi(&mut self) -> (r: Result<(), CpuError>)
        ensures
            outcome(old(self)@, final(self)@, r, shift_step(old(self)@, ShiftOp::Rlc, Target::Ix, 4)),
    {
        self.shift_instr(ShiftOp::Rlc, Target::Ix, 4)
    }

    /// RLC (IY+d)
    pub fn rlc_iydi(&mut self) -> (r: Result<(), CpuError>)
        ensures
            outcome(old(self)@, final(self)@, r, shift_step(old(self)@, ShiftOp::Rlc, Target::Iy, 4)),
    {
        self.shift_instr(ShiftOp::Rlc, Target::Iy, 4)
    }

    /// RL r
    pub fn rl_r(&mut self) -> (r: Result<(), CpuError>)
        ensures
            outcome(old(self)@, final(self)@, r, shift_step(old(self)@, ShiftOp::Rl, Target::RegLow, 2)),
    {
        self.shift_instr(ShiftOp::Rl, Target::RegLow, 2)
    }

    /// RL (HL)
    pub fn rl_hli(&mut self) -> (r: Result<(), CpuError>)
        ensures
            outcome(old(self)@, final(self)@, r, shift_step(old(self)@, ShiftOp::Rl, Target::Hl, 2)),
    {
        self.shift_instr(ShiftOp::Rl, Target::Hl, 2)
    }

    /// RL (IX+d)
    pub fn rl_ixdi(&mut self) -> (r: Result<(), CpuError>)
        ensures
            outcome(old(self)@, final(self)@, r, shift_step(old(self)@, ShiftOp::Rl, Target::Ix, 4)),
    {
        self.shift_instr(ShiftOp::Rl, Target::Ix, 4)
    }

    /// RL (IY+d)
    pub fn rl_iydi(&mut self) -> (r: Result<(), CpuError>)
        ensures
            outcome(old(self)@, final(self)@, r, shift_step(old(self)@, ShiftOp::Rl, Target::Iy, 4)),
    {
        self.shift_instr(ShiftOp::Rl, Target::Iy, 4)
    }

    /// RRC r
    pub fn rrc_r(&mut self) -> (r: Result<(), CpuError>)
        ensures
            outcome(old(self)@, final(self)@, r, shift_step(old(self)@, ShiftOp::Rrc, Target::RegLow, 2)),
    {
        self.shift_instr(ShiftOp::Rrc, Target::RegLow, 2)
    }

    /// RRC (HL)
    pub fn rrc_hli(&mut self) -> (r: Result<(), CpuError>)
        ensures
            outcome(old(self)@, final(self)@, r, shift_step(old(self)@, ShiftOp::Rrc, Target::Hl, 2)),
    {
        self.shift_instr(ShiftOp::Rrc, Target::Hl, 2)
    }

    /// RRC (IX+d)
    pub fn rrc_ixdi(&mut self) -> (r: Result<(), CpuError>)
        ensures
            outcome(old(self)@, final(self)@, r, shift_step(old(self)@, ShiftOp::Rrc, Target::Ix, 4)),
    {
        self.shift_instr(ShiftOp::Rrc, Target::Ix, 4)
    }

    /// RRC (IY+d)
    pub fn rrc_iydi(&mut self) -> (r: Result<(), CpuError>)
        ensures
            outcome(old(self)@, final(self)@, r, shift_step(old(self)@, ShiftOp::Rrc, Target::Iy, 4)),
    {
        self.shift_instr(ShiftOp::Rrc, Target::Iy, 4)
    }

    /// RR r
    pub fn rr_r(&mut self) -> (r: Result<(), CpuError>)
        ensures
            outcome(old(self)@, final(self)@, r, shift_step(old(self)@, ShiftOp::Rr, Target::RegLow, 2)),
    {
        self.shift_instr(ShiftOp::Rr, Target::RegLow, 2)
    }

    /// RR (HL)
    pub fn rr_hli(&mut self) -> (r: Result<(), CpuError>)
        ensures
            outcome(old(self)@, final(self)@, r, shift_step(old(self)@, ShiftOp::Rr, Target::Hl, 2)),
    {
        self.shift_instr(ShiftOp::Rr, Target::Hl, 2)
    }

    /// RR (IX+d)
    pub fn rr_ixdi(&mut self) -> (r: Result<(), CpuError>)
        ensures
            outcome(old(self)@, final(self)@, r, shift_step(old(self)@, ShiftOp::Rr, Target::Ix, 4)),
    {
        self.shift_instr(ShiftOp::Rr, Target::Ix, 4)
    }

    /// RR (IY+d)
    pub fn rr_iydi(&mut self) -> (r: Result<(), CpuError>)
        ensures
            outcome(old(self)@, final(self)@, r, shift_step(old(self)@, ShiftOp::Rr, Target::Iy, 4)),
    {
        self.shift_instr(ShiftOp::Rr, Target::Iy, 4)
    }

    /// SLA r
    pub fn sla_r(&mut self) -> (r: Result<(), CpuError>)
        ensures
            outcome(old(self)@, final(self)@, r, shift_step(old(self)@, ShiftOp::Sla, Target::RegLow, 2)),
    {
        self.shift_instr(ShiftOp::Sla, Target::RegLow, 2)
    }

    /// SLA (HL)
    pub fn sla_hli(&mut self) -> (r: Result<(), CpuError>)
        ensures
            outcome(old(self)@, final(self)@, r, shift_step(old(self)@, ShiftOp::Sla, Target::Hl, 2)),
    {
        self.shift_instr(ShiftOp::Sla, Target::Hl, 2)
    }

    /// SLA (IX+d)
    pub fn sla_ixdi(&mut self) -> (r: Result<(), CpuError>)
        ensures
            outcome(old(self)@, final(self)@, r, shift_step(old(self)@, ShiftOp::Sla, Target::Ix, 4)),
    {
        self.shift_instr(ShiftOp::Sla, Target::Ix, 4)
    }

    /// SLA (IY+d)
    pub fn sla_iydi(&mut self) -> (r: Result<(), CpuError>)
        ensures
            outcome(old(self)@, final(self)@, r, shift_step(old(self)@, ShiftOp::Sla, Target::Iy, 4)),
    {
        self.shift_instr(ShiftOp::Sla, Target::Iy, 4)
    }

    /// SRA r
    pub fn sra_r(&mut self) -> (r: Result<(), CpuError>)
        ensures
            outcome(old(self)@, final(self)@, r, shift_step(old(self)@, ShiftOp::Sra, Target::RegLow, 2)),
    {
        self.shift_instr(ShiftOp::Sra, Target::RegLow, 2)
    }

    /// SRA (HL)
    pub fn sra_hli(&mut self) -> (r: Result<(), CpuError>)
        ensures
            outcome(old(self)@, final(self)@, r, shift_step(old(self)@, ShiftOp::Sra, Target::Hl, 2)),
    {
        self.shift_instr(ShiftOp::Sra, Target::Hl, 2)
    }

    /// SRA (IX+d)
    pub fn sra_ixdi(&mut self) -> (r: Result<(), CpuError>)
        ensures
            outcome(old(self)@, final(self)@, r, shift_step(old(self)@, ShiftOp::Sra, Target::Ix, 4)),
    {
        self.shift_instr(ShiftOp::Sra, Target::Ix, 4)
    }

    /// SRA (IY+d)
    pub fn sra_iydi(&mut self) -> (r: Result<(), CpuError>)
        ensures
            outcome(old(self)@, final(self)@, r, shift_step(old(self)@, ShiftOp::Sra, Target::Iy, 4)),
    {
        self.shift_instr(ShiftOp::Sra, Target::Iy, 4)
    }

    /// SRL r
    pub fn srl_r(&mut self) -> (r: Result<(), CpuError>)
        ensures
            outcome(old(self)@, final(self)@, r, shift_step(old(self)@, ShiftOp::Srl, Target::RegLow, 2)),
    {
        self.shift_instr(ShiftOp::Srl, Target::RegLow, 2)
    }

    /// SRL (HL)
    pub fn srl_hli(&mut self) -> (r: Result<(), CpuError>)
        ensures
            outcome(old(self)@, final(self)@, r, shift_step(old(self)@, ShiftOp::Srl, Target::Hl, 2)),
    {
        self.shift_instr(ShiftOp::Srl, Target::Hl, 2)
    }

    /// SRL (IX+d)
    pub fn srl_ixdi(&mut self) -> (r: Result<(), CpuError>)
        ensures
            outcome(old(self)@, final(self)@, r, shift_step(old(self)@, ShiftOp::Srl, Target::Ix, 4)),
    {
        self.shift_instr(ShiftOp::Srl, Target::Ix, 4)
    }

    /// SRL (IY+d)
    pub fn srl_iydi(&mut self) -> (r: Result<(), CpuError>)
        ensures
            outcome(old(self)@, final(self)@, r, shift_step(old(self)@, ShiftOp::Srl, Target::Iy, 4)),
    {
        self.shift_instr(ShiftOp::Srl, Target::Iy, 4)
    }

    /// RLCA
    pub fn rlca(&mut self) -> (r: Result<(), CpuError>)
        ensures
            outcome(old(self)@, final(self)@, r, shift_a_step(old(self)@, ShiftOp::Rlc)),
    {
        self.shift_a_instr(ShiftOp::Rlc)
    }

    /// RLA
    pub fn rla(&mut self) -> (r: Result<(), CpuError>)
        ensures
            outcome(old(self)@, final(self)@, r, shift_a_step(old(self)@, ShiftOp::Rl)),
    {
        self.shift_a_instr(ShiftOp::Rl)
    }

    /// RRCA
    pub fn rrca(&mut self) -> (r: Result<(), CpuError>)
        ensures
            outcome(old(self)@, final(self)@, r, shift_a_step(old(self)@, ShiftOp::Rrc)),
    {
        self.shift_a_instr(ShiftOp::Rrc)
    }

    /// RRA
    pub fn rra(&mut self) -> (r: Result<(), CpuError>)
        ensures
            outcome(old(self)@, final(self)@, r, shift_a_step(old(self)@, ShiftOp::Rr)),
    {
        self.shift_a_instr(ShiftOp::Rr)
    }

    /// RLD
    pub fn rld(&mut self) -> (r: Result<(), CpuError>)
        ensures
            outcome(old(self)@, final(self)@, r, nibble_step(old(self)@, true)),
    {
        self.nibble_instr(true)
    }

    /// RRD
    pub fn rrd(&mut self) -> (r: Result<(), CpuError>)
        ensures
            outcome(old(self)@, final(self)@, r, nibble_step(old(self)@, false)),
    {
        self.nibble_instr(false)
    }

    /// BIT b, r
    pub fn bit_b_r(&mut self) -> (r: Result<(), CpuError>)
        ensures
            outcome(old(self)@, final(self)@, r, bit_step(old(self)@, Target::RegLow, 1, 2)),
    {
        self.bit_instr(Target::RegLow, 1, 2)
    }

    /// SET b, r
    pub fn set_b_r(&mut self) -> (r: Result<(), CpuError>)
        ensures
            outcome(old(self)@, final(self)@, r, setres_step(old(self)@, true, Target::RegLow, 1, 2)),
    {
        self.setres_instr(true, Target::RegLow, 1, 2)
    }

    /// RES b, r
    pub fn res_b_r(&mut self) -> (r: Result<(), CpuError>)
        ensures
            outcome(old(self)@, final(self)@, r, setres_step(old(self)@, false, Target::RegLow, 1, 2)),
    {
        self.setres_instr(false, Target::RegLow, 1, 2)
    }

    /// BIT b, (HL)
    pub fn bit_b_hli(&mut self) -> (r: Result<(), CpuError>)
        ensures
            outcome(old(self)@, final(self)@, r, bit_step(old(self)@, Target::Hl, 1, 2)),
    {
        self.bit_instr(Target::Hl, 1, 2)
    }

    /// SET b, (HL)
    pub fn set_b_hli(&mut self) -> (r: Result<(), CpuError>)
        ensures
            outcome(old(self)@, final(self)@, r, setres_step(old(self)@, true, Target::Hl, 1, 2)),
    {
        self.setres_instr(true, Target::Hl, 1, 2)
    }

    /// RES b, (HL)
    pub fn res_b_hli(&mut self) -> (r: Result<(), CpuError>)
        ensures
            outcome(old(self)@, final(self)@, r, setres_step(old(self)@, false, Target::Hl, 1, 2)),
    {
        self.setres_instr(false, Target::Hl, 1, 2)
    }

    /// BIT b, (IX+d)
    pub fn bit_b_ixdi(&mut self) -> (r: Result<(), CpuError>)
        ensures
            outcome(old(self)@, final(self)@, r, bit_step(old(self)@, Target::Ix, 3, 4)),
    {
        self.bit_instr(Target::Ix, 3, 4)
    }

    /// SET b, (IX+d)
    pub fn set_b_ixdi(&mut self) -> (r: Result<(), CpuError>)
        ensures
            outcome(old(self)@, final(self)@, r, setres_step(old(self)@, true, Target::Ix, 3, 4)),
    {
        self.setres_instr(true, Target::Ix, 3, 4)
    }

    /// RES b, (IX+d)
    pub fn res_b_ixdi(&mut self) -> (r: Result<(), CpuError>)
        ensures
            outcome(old(self)@, final(self)@, r, setres_step(old(self)@, false, Target::Ix, 3, 4)),
    {
        self.setres_instr(false, Target::Ix, 3, 4)
    }

    /// BIT b, (IY+d)
    pub fn bit_b_iydi(&mut self) -> (r: Result<(), CpuError>)
        ensures
            outcome(old(self)@, final(self)@, r, bit_step(old(self)@, Target::Iy, 3, 4)),
    {
        self.bit_instr(Target::Iy, 3, 4)
    }

    /// SET b, (IY+d)
    pub fn set_b_iydi(&mut self) -> (r: Result<(), CpuError>)
        ensures
            outcome(old(self)@, final(self)@, r, setres_step(old(self)@, true, Target::Iy, 3, 4)),
    {
        self.setres_instr(true, Target::Iy, 3, 4)
    }

    /// RES b, (IY+d)
    pub fn res_b_iydi(&mut self) -> (r: Result<(), CpuError>)
        ensures
            outcome(old(self)@, final(self)@, r, setres_step(old(self)@, false, Target::Iy, 3, 4)),
    {
        self.setres_instr(false, Target::Iy, 3, 4)
    }
}

} // verus!

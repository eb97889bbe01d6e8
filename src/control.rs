//! The general-purpose arithmetic and CPU control groups.

use vstd::prelude::*;
use crate::alu8::{sub_flags, sub_result};
use crate::cpu::{flag_c, flag_h, flag_n, flag_pv, flag_s, flag_z, pack_flags, parity_even, Cpu, CpuError, CpuView, outcome};

verus! {

/// The correction that DAA adds to (or, after a subtraction, takes from) A.
pub open spec fn daa_correction(a: u8, c: bool, h: bool) -> int {
    (if h || a % 16 > 9 { 0x06int } else { 0 }) + (if c || a > 0x99 { 0x60int } else { 0 })
}

/// A after DAA.
pub open spec fn daa_result(a: u8, f: u8) -> u8 {
    let corr = daa_correction(a, flag_c(f), flag_h(f));
    if flag_n(f) {
        ((a + 256 - corr) % 256) as u8
    } else {
        ((a + corr) % 256) as u8
    }
}

/// The flags after DAA: H from the low nibble, C set when the high digit was corrected, N kept.
pub open spec fn daa_flags(a: u8, f: u8) -> u8 {
    let r = daa_result(a, f);
    let h = if flag_n(f) { flag_h(f) && a % 16 < 6 } else { a % 16 > 9 };
    pack_flags(f, r >= 128, r == 0, h, parity_even(r), flag_n(f), flag_c(f) || a > 0x99)
}

/// An instruction that changes A and F as given and moves PC on.
pub open spec fn af_step(s: CpuView, a: u8, f: u8, len: int) -> Result<CpuView, CpuError> {
    if s.len() == 0 {
        Err(CpuError::AddressOutOfRange)
    } else {
        Ok(CpuView { a, f, pc: s.next_pc(len), ..s })
    }
}

/// An instruction that changes only the control state and moves PC on.
pub open spec fn control_step(s: CpuView, t: CpuView, len: int) -> Result<CpuView, CpuError> {
    if s.len() == 0 {
        Err(CpuError::AddressOutOfRange)
    } else {
        Ok(t.with_pc(s.next_pc(len)))
    }
}

impl Cpu {
    /// A and F after DAA; `c`, `h` and `n` are the flags held in `f`.
    fn decimal_adjust(a: u8, f: u8, c: bool, h: bool, n: bool) -> (r: (u8, u8))
        requires
            c == flag_c(f),
            h == flag_h(f),
            n == flag_n(f),
        ensures
            r.0 == daa_result(a, f),
            r.1 == daa_flags(a, f),
    {
        let lo: u8 = if h || a % 16 > 9 { 0x06 } else { 0 };
        let hi: u8 = if c || a > 0x99 { 0x60 } else { 0 };
        let corr: u16 = lo as u16 + hi as u16;
        assert(corr == daa_correction(a, c, h));
        let r: u8 = if n {
            ((a as u16 + 256 - corr) % 256) as u8
        } else {
            ((a as u16 + corr) % 256) as u8
        };
        assert(r == daa_result(a, f));
        let hf = if n { h && a % 16 < 6 } else { a % 16 > 9 };
        (r, Self::pack(f, r >= 128, r == 0, hf, Self::parity(r), n, c || a > 0x99))
    }

    fn set_af(&mut self, a: u8, f: u8, len: u16)
        requires
            old(self).memory.len() > 0,
        ensures
            af_step(old(self)@, a, f, len as int) == Ok::<CpuView, CpuError>(final(self)@),
    {
        self.a = a;
        self.f = f;
        self.incr_pc(len);
    }

    /// DAA: decimal adjust of A after a BCD addition or subtraction
    pub fn daa(&mut self) -> (r: Result<(), CpuError>)
        ensures
            outcome(old(self)@, final(self)@, r, af_step(old(self)@, daa_result(old(self)@.a, old(self)@.f), daa_flags(old(self)@.a, old(self)@.f), 1)),
    {
        if self.memory.len() == 0 {
            return Err(CpuError::AddressOutOfRange);
        }
        let (r, f) = Self::decimal_adjust(self.a, self.f, self.get_c(), self.get_h(), self.get_n());
        self.set_af(r, f, 1);
        Ok(())
    }

    /// CPL: A is complemented; H and N are set
    pub fn cpl(&mut self) -> (r: Result<(), CpuError>)
        ensures
            outcome(old(self)@, final(self)@, r, af_step(old(self)@, (255 - old(self)@.a) as u8, pack_flags(old(self)@.f, flag_s(old(self)@.f), flag_z(old(self)@.f), true, flag_pv(old(self)@.f), true, flag_c(old(self)@.f)), 1)),
    {
        if self.memory.len() == 0 {
            return Err(CpuError::AddressOutOfRange);
        }
        let f = Self::pack(self.f, self.get_s(), self.get_z(), true, self.get_pv(), true, self.get_c());
        self.set_af(255 - self.a, f, 1);
        Ok(())
    }

    /// NEG: A is negated, with the flags of 0 - A
    pub fn neg(&mut self) -> (r: Result<(), CpuError>)
        ensures
            outcome(old(self)@, final(self)@, r, af_step(old(self)@, sub_result(0, old(self)@.a, 0), sub_flags(old(self)@.f, 0, old(self)@.a, 0), 2)),
    {
        if self.memory.len() == 0 {
            return Err(CpuError::AddressOutOfRange);
        }
        let a = self.a;
        let f = self.f;
        self.a = 0;
        self.alu(crate::alu8::AluOp::Sub, a);
        let r = self.a;
        let fl = self.f;
        self.f = f;
        self.set_af(r, fl, 2);
        Ok(())
    }

    /// CCF: C is inverted, H takes the old C, N is reset
    pub fn ccf(&mut self) -> (r: Result<(), CpuError>)
        ensures
            outcome(old(self)@, final(self)@, r, af_step(old(self)@, old(self)@.a, pack_flags(old(self)@.f, flag_s(old(self)@.f), flag_z(old(self)@.f), flag_c(old(self)@.f), flag_pv(old(self)@.f), false, !flag_c(old(self)@.f)), 1)),
    {
        if self.memory.len() == 0 {
            return Err(CpuError::AddressOutOfRange);
        }
        let c = self.get_c();
        let f = Self::pack(self.f, self.get_s(), self.get_z(), c, self.get_pv(), false, !c);
        self.set_af(self.a, f, 1);
        Ok(())
    }

    /// SCF: C is set, H and N are reset
    pub fn scf(&mut self) -> (r: Result<(), CpuError>)
        ensures
            outcome(old(self)@, final(self)@, r, af_step(old(self)@, old(self)@.a, pack_flags(old(self)@.f, flag_s(old(self)@.f), flag_z(old(self)@.f), false, flag_pv(old(self)@.f), false, true), 1)),
    {
        if self.memory.len() == 0 {
            return Err(CpuError::AddressOutOfRange);
        }
        let f = Self::pack(self.f, self.get_s(), self.get_z(), false, self.get_pv(), false, true);
        self.set_af(self.a, f, 1);
        Ok(())
    }

    /// NOP
    pub fn nop(&mut self) -> (r: Result<(), CpuError>)
        ensures
            outcome(old(self)@, final(self)@, r, control_step(old(self)@, old(self)@, 1)),
    {
        if self.memory.len() == 0 {
            return Err(CpuError::AddressOutOfRange);
        }
        self.incr_pc(1);
        Ok(())
    }

    /// HALT: the CPU enters the halted state until an interrupt or a reset
    pub fn halt(&mut self) -> (r: Result<(), CpuError>)
        ensures
            outcome(old(self)@, final(self)@, r, control_step(old(self)@, CpuView { halted: true, ..old(self)@ }, 1)),
    {
        if self.memory.len() == 0 {
            return Err(CpuError::AddressOutOfRange);
        }
        self.halted = true;
        self.incr_pc(1);
        Ok(())
    }

    /// DI: both interrupt flip-flops are reset
    pub fn di(&mut self) -> (r: Result<(), CpuError>)
        ensures
            outcome(old(self)@, final(self)@, r, control_step(old(self)@, CpuView { iff1: false, iff2: false, ..old(self)@ }, 1)),
    {
        if self.memory.len() == 0 {
            return Err(CpuError::AddressOutOfRange);
        }
        self.iff1 = false;
        self.iff2 = false;
        self.incr_pc(1);
        Ok(())
    }

    /// EI: both interrupt flip-flops are set
    pub fn ei(&mut self) -> (r: Result<(), CpuError>)
        ensures
            outcome(old(self)@, final(self)@, r, control_step(old(self)@, CpuView { iff1: true, iff2: true, ..old(self)@ }, 1)),
    {
        if self.memory.len() == 0 {
            return Err(CpuError::AddressOutOfRange);
        }
        self.iff1 = true;
        self.iff2 = true;
        self.incr_pc(1);
        Ok(())
    }

    /// IM 0: interrupt mode 0
    pub fn im_0(&mut self) -> (r: Result<(), CpuError>)
        ensures
            outcome(old(self)@, final(self)@, r, control_step(old(self)@, CpuView { im: 0, ..old(self)@ }, 2)),
    {
        if self.memory.len() == 0 {
            return Err(CpuError::AddressOutOfRange);
        }
        self.im = 0;
        self.incr_pc(2);
        Ok(())
    }

    /// IM 1: interrupt mode 1
    pub fn im_1(&mut self) -> (r: Result<(), CpuError>)
        ensures
            outcome(old(self)@, final(self)@, r, control_step(old(self)@, CpuView { im: 1, ..old(self)@ }, 2)),
    {
        if self.memory.len() == 0 {
            return Err(CpuError::AddressOutOfRange);
        }
        self.im = 1;
        self.incr_pc(2);
        Ok(())
    }

    /// IM 2: interrupt mode 2
    pub fn im_2(&mut self) -> (r: Result<(), CpuError>)
        ensures
            outcome(old(self)@, final(self)@, r, control_step(old(self)@, CpuView { im: 2, ..old(self)@ }, 2)),
    {
        if self.memory.len() == 0 {
            return Err(CpuError::AddressOutOfRange);
        }
        self.im = 2;
        self.incr_pc(2);
        Ok(())
    }
}

} // verus!

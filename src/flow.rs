//! The jump, call and return group.

use vstd::prelude::*;
use crate::cpu::{flag_c, flag_pv, flag_s, flag_z, sext, Cpu, CpuError, CpuView, outcome};
use crate::load::{popped, push_word, stack_top};

verus! {

/// The condition that a 3-bit field names: NZ, Z, NC, C, PO, PE, P, M.
pub open spec fn condition(f: u8, cc: u8) -> bool {
    if cc == 0 {
        !flag_z(f)
    } else if cc == 1 {
        flag_z(f)
    } else if cc == 2 {
        !flag_c(f)
    } else if cc == 3 {
        flag_c(f)
    } else if cc == 4 {
        !flag_pv(f)
    } else if cc == 5 {
        flag_pv(f)
    } else if cc == 6 {
        !flag_s(f)
    } else {
        flag_s(f)
    }
}

/// The condition named by bits 5..3 of the opcode.
pub open spec fn opcode_condition(s: CpuView) -> bool {
    condition(s.f, (s.fetch(0) / 8 % 8) as u8)
}

/// The target of a relative jump: the next instruction plus the signed displacement.
pub open spec fn relative_target(s: CpuView) -> u16 {
    ((s.next_pc(2) + sext(s.fetch(1))) % 0x10000) as u16
}

/// A jump to `target` if `take`, else on to the next instruction.
pub open spec fn jump_step(s: CpuView, take: bool, target: u16, len: int) -> Result<CpuView, CpuError> {
    if s.len() == 0 {
        Err(CpuError::AddressOutOfRange)
    } else {
        Ok(s.with_pc(if take { target } else { s.next_pc(len) }))
    }
}

/// DJNZ: B drops by one; the jump is taken iff B is then not zero.
pub open spec fn djnz_step(s: CpuView) -> Result<CpuView, CpuError> {
    if s.len() == 0 {
        Err(CpuError::AddressOutOfRange)
    } else {
        let b = ((s.b - 1) % 256) as u8;
        Ok(CpuView { b, pc: if b != 0 { relative_target(s) } else { s.next_pc(2) }, ..s })
    }
}

/// A call of `target` if `take`: the address of the next instruction is pushed.
pub open spec fn call_step(s: CpuView, take: bool, target: u16, len: int) -> Result<CpuView, CpuError> {
    if s.len() == 0 {
        Err(CpuError::AddressOutOfRange)
    } else if !take {
        Ok(s.with_pc(s.next_pc(len)))
    } else {
        match push_word(s, s.next_pc(len)) {
            Ok(t) => Ok(t.with_pc(target)),
            Err(e) => Err(e),
        }
    }
}

/// A return if `take`: PC is popped; with `restore`, IFF1 takes IFF2.
pub open spec fn ret_step(s: CpuView, take: bool, len: int, restore: bool) -> Result<CpuView, CpuError> {
    if s.len() == 0 {
        Err(CpuError::AddressOutOfRange)
    } else if !take {
        Ok(s.with_pc(s.next_pc(len)))
    } else {
        match stack_top(s) {
            Ok(v) => Ok(CpuView { pc: v, iff1: if restore { s.iff2 } else { s.iff1 }, ..popped(s) }),
            Err(e) => Err(e),
        }
    }
}

impl Cpu {
    /// Whether the condition in bits 5..3 of the opcode at offset `k` holds.
    pub fn condition_at_pc(&self, k: u16) -> (r: bool)
        requires
            self.memory.len() > 0,
        ensures
            r == condition(self.f, (self@.fetch(k as int) / 8 % 8) as u8),
    {
        let cc = self.memory_at_pc(k) / 8 % 8;
        match cc {
            0 => !self.get_z(),
            1 => self.get_z(),
            2 => !self.get_c(),
            3 => self.get_c(),
            4 => self.parity_is_odd(),
            5 => self.parity_is_even(),
            6 => self.sign_is_positive(),
            _ => self.sign_is_negative(),
        }
    }

    /// The target of the relative jump at PC.
    fn relative_target(&self) -> (r: u16)
        requires
            self.memory.len() > 0,
        ensures
            r == relative_target(self@),
    {
        let next = self.pc_after(2);
        let d = self.memory_at_pc(1);
        Self::displace(next, d) as u16
    }

    fn jump(&mut self, take: bool, target: u16, len: u16)
        requires
            old(self).memory.len() > 0,
        ensures
            jump_step(old(self)@, take, target, len as int) == Ok::<CpuView, CpuError>(final(self)@),
    {
        if take {
            self.pc = target;
        } else {
            self.incr_pc(len);
        }
    }

    fn call(&mut self, take: bool, target: u16, len: u16) -> (r: Result<(), CpuError>)
        requires
            old(self).memory.len() > 0,
        ensures
            outcome(old(self)@, final(self)@, r, call_step(old(self)@, take, target, len as int)),
    {
        if !take {
            self.incr_pc(len);
            return Ok(());
        }
        let ret = self.pc_after(len);
        match self.push(ret) {
            Ok(()) => {
                self.pc = target;
                Ok(())
            },
            Err(e) => Err(e),
        }
    }

    fn ret_from(&mut self, take: bool, len: u16, restore: bool) -> (r: Result<(), CpuError>)
        requires
            old(self).memory.len() > 0,
        ensures
            outcome(old(self)@, final(self)@, r, ret_step(old(self)@, take, len as int, restore)),
    {
        if !take {
            self.incr_pc(len);
            return Ok(());
        }
        match self.pop() {
            Ok(v) => {
                self.pc = v;
                if restore {
                    self.iff1 = self.iff2;
                }
                Ok(())
            },
            Err(e) => Err(e),
        }
    }

    /// JP nn
    pub fn jp_nn(&mut self) -> (r: Result<(), CpuError>)
        ensures
            outcome(old(self)@, final(self)@, r, jump_step(old(self)@, true, old(self)@.fetch_word(1), 3)),
    {
        if self.memory.len() == 0 {
            return Err(CpuError::AddressOutOfRange);
        }
        let take = true;
        let target = self.word_at_pc(1);
        self.jump(take, target, 3);
        Ok(())
    }

    /// JP cc, nn
    pub fn jp_cc_nn(&mut self) -> (r: Result<(), CpuError>)
        ensures
            outcome(old(self)@, final(self)@, r, jump_step(old(self)@, opcode_condition(old(self)@), old(self)@.fetch_word(1), 3)),
    {
        if self.memory.len() == 0 {
            return Err(CpuError::AddressOutOfRange);
        }
        let take = self.condition_at_pc(0);
        let target = self.word_at_pc(1);
        self.jump(take, target, 3);
        Ok(())
    }

    /// JR e
    pub fn jr_e(&mut self) -> (r: Result<(), CpuError>)
        ensures
            outcome(old(self)@, final(self)@, r, jump_step(old(self)@, true, relative_target(old(self)@), 2)),
    {
        if self.memory.len() == 0 {
            return Err(CpuError::AddressOutOfRange);
        }
        let take = true;
        let target = self.relative_target();
        self.jump(take, target, 2);
        Ok(())
    }

    /// JR C, e
    pub fn jr_c_e(&mut self) -> (r: Result<(), CpuError>)
        ensures
            outcome(old(self)@, final(self)@, r, jump_step(old(self)@, flag_c(old(self)@.f), relative_target(old(self)@), 2)),
    {
        if self.memory.len() == 0 {
            return Err(CpuError::AddressOutOfRange);
        }
        let take = self.get_c();
        let target = self.relative_target();
        self.jump(take, target, 2);
        Ok(())
    }

    /// JR NC, e
    pub fn jr_nc_e(&mut self) -> (r: Result<(), CpuError>)
        ensures
            outcome(old(self)@, final(self)@, r, jump_step(old(self)@, !flag_c(old(self)@.f), relative_target(old(self)@), 2)),
    {
        if self.memory.len() == 0 {
            return Err(CpuError::AddressOutOfRange);
        }
        let take = !self.get_c();
        let target = self.relative_target();
        self.jump(take, target, 2);
        Ok(())
    }

    /// JR Z, e
    pub fn jr_z_e(&mut self) -> (r: Result<(), CpuError>)
        ensures
            outcome(old(self)@, final(self)@, r, jump_step(old(self)@, flag_z(old(self)@.f), relative_target(old(self)@), 2)),
    {
        if self.memory.len() == 0 {
            return Err(CpuError::AddressOutOfRange);
        }
        let take = self.get_z();
        let target = self.relative_target();
        self.jump(take, target, 2);
        Ok(())
    }

    /// JR NZ, e
    pub fn jr_nz_e(&mut self) -> (r: Result<(), CpuError>)
        ensures
            outcome(old(self)@, final(self)@, r, jump_step(old(self)@, !flag_z(old(self)@.f), relative_target(old(self)@), 2)),
    {
        if self.memory.len() == 0 {
            return Err(CpuError::AddressOutOfRange);
        }
        let take = !self.get_z();
        let target = self.relative_target();
        self.jump(take, target, 2);
        Ok(())
    }

    /// JP (HL)
    pub fn jp_hl(&mut self) -> (r: Result<(), CpuError>)
        ensures
            outcome(old(self)@, final(self)@, r, jump_step(old(self)@, true, old(self)@.hl(), 1)),
    {
        if self.memory.len() == 0 {
            return Err(CpuError::AddressOutOfRange);
        }
        let take = true;
        let target = self.read_hl();
        self.jump(take, target, 1);
        Ok(())
    }

    /// JP (IX)
    pub fn jp_ix(&mut self) -> (r: Result<(), CpuError>)
        ensures
            outcome(old(self)@, final(self)@, r, jump_step(old(self)@, true, old(self)@.ix, 2)),
    {
        if self.memory.len() == 0 {
            return Err(CpuError::AddressOutOfRange);
        }
        let take = true;
        let target = self.ix;
        self.jump(take, target, 2);
        Ok(())
    }

    /// JP (IY)
    pub fn jp_iy(&mut self) -> (r: Result<(), CpuError>)
        ensures
            outcome(old(self)@, final(self)@, r, jump_step(old(self)@, true, old(self)@.iy, 2)),
    {
        if self.memory.len() == 0 {
            return Err(CpuError::AddressOutOfRange);
        }
        let take = true;
        let target = self.iy;
        self.jump(take, target, 2);
        Ok(())
    }

    /// DJNZ e
    pub fn djnz_e(&mut self) -> (r: Result<(), CpuError>)
        ensures
            outcome(old(self)@, final(self)@, r, djnz_step(old(self)@)),
    {
        if self.memory.len() == 0 {
            return Err(CpuError::AddressOutOfRange);
        }
        let target = self.relative_target();
        self.b = if self.b == 0 { 255 } else { self.b - 1 };
        let take = self.b != 0;
        self.jump(take, target, 2);
        Ok(())
    }

    /// CALL nn
    pub fn call_nn(&mut self) -> (r: Result<(), CpuError>)
        ensures
            outcome(old(self)@, final(self)@, r, call_step(old(self)@, true, old(self)@.fetch_word(1), 3)),
    {
        if self.memory.len() == 0 {
            return Err(CpuError::AddressOutOfRange);
        }
        let target = self.word_at_pc(1);
        self.call(true, target, 3)
    }

    /// CALL cc, nn
    pub fn call_cc_nn(&mut self) -> (r: Result<(), CpuError>)
        ensures
            outcome(old(self)@, final(self)@, r, call_step(old(self)@, opcode_condition(old(self)@), old(self)@.fetch_word(1), 3)),
    {
        if self.memory.len() == 0 {
            return Err(CpuError::AddressOutOfRange);
        }
        let take = self.condition_at_pc(0);
        let target = self.word_at_pc(1);
        self.call(take, target, 3)
    }

    /// RST p: a call of the vector in bits 5..3 of the opcode, times 8
    pub fn rst_p(&mut self) -> (r: Result<(), CpuError>)
        ensures
            outcome(old(self)@, final(self)@, r, call_step(old(self)@, true, (old(self)@.fetch(0) / 8 % 8 * 8) as u16, 1)),
    {
        if self.memory.len() == 0 {
            return Err(CpuError::AddressOutOfRange);
        }
        let target = (self.memory_at_pc(0) / 8 % 8 * 8) as u16;
        self.call(true, target, 1)
    }

    /// RET
    pub fn ret(&mut self) -> (r: Result<(), CpuError>)
        ensures
            outcome(old(self)@, final(self)@, r, ret_step(old(self)@, true, 1, false)),
    {
        if self.memory.len() == 0 {
            return Err(CpuError::AddressOutOfRange);
        }
        self.ret_from(true, 1, false)
    }

    /// RET cc
    pub fn ret_cc(&mut self) -> (r: Result<(), CpuError>)
        ensures
            outcome(old(self)@, final(self)@, r, ret_step(old(self)@, opcode_condition(old(self)@), 1, false)),
    {
        if self.memory.len() == 0 {
            return Err(CpuError::AddressOutOfRange);
        }
        let take = self.condition_at_pc(0);
        self.ret_from(take, 1, false)
    }

    /// RETI
    pub fn reti(&mut self) -> (r: Result<(), CpuError>)
        ensures
            outcome(old(self)@, final(self)@, r, ret_step(old(self)@, true, 2, false)),
    {
        if self.memory.len() == 0 {
            return Err(CpuError::AddressOutOfRange);
        }
        self.ret_from(true, 2, false)
    }

    /// RETN: a return that restores IFF1 from IFF2
    pub fn retn(&mut self) -> (r: Result<(), CpuError>)
        ensures
            outcome(old(self)@, final(self)@, r, ret_step(old(self)@, true, 2, true)),
    {
        if self.memory.len() == 0 {
            return Err(CpuError::AddressOutOfRange);
        }
        self.ret_from(true, 2, true)
    }
}

} // verus!

//! The exchange, block transfer and search group.

use vstd::prelude::*;
use crate::alu8::{half_borrow_sub, sub_result};
use crate::cpu::{flag_c, flag_pv, flag_s, flag_z, pack_flags, Cpu, CpuError, CpuView, Register16, outcome};
use crate::load::{mem_word, wide, with_wide, with_word, word_readable, Wide};

verus! {

/// The number of iterations after which a repeating block instruction has surely ended.
pub const BLOCK_LIMIT: u32 = 0x10000;

/// One step up (`inc`) or down, on 16 bits.
pub open spec fn step16(x: u16, inc: bool) -> u16 {
    if inc {
        ((x + 1) % 0x10000) as u16
    } else {
        ((x + 0xffff) % 0x10000) as u16
    }
}

/// One step down, on 16 bits.
pub open spec fn dec16(x: u16) -> u16 {
    step16(x, false)
}

/// EX DE,HL.
pub open spec fn ex_de_hl_step(s: CpuView) -> Result<CpuView, CpuError> {
    if s.len() == 0 {
        Err(CpuError::AddressOutOfRange)
    } else {
        Ok(CpuView { d: s.h, e: s.l, h: s.d, l: s.e, pc: s.next_pc(1), ..s })
    }
}

/// EX AF,AF'.
pub open spec fn ex_af_step(s: CpuView) -> Result<CpuView, CpuError> {
    if s.len() == 0 {
        Err(CpuError::AddressOutOfRange)
    } else {
        Ok(CpuView { a: s.a1, f: s.f1, a1: s.a, f1: s.f, pc: s.next_pc(1), ..s })
    }
}

/// EXX: BC, DE and HL trade places with their shadow registers.
pub open spec fn exx_step(s: CpuView) -> Result<CpuView, CpuError> {
    if s.len() == 0 {
        Err(CpuError::AddressOutOfRange)
    } else {
        Ok(
            CpuView {
                b: s.b1,
                c: s.c1,
                d: s.d1,
                e: s.e1,
                h: s.h1,
                l: s.l1,
                b1: s.b,
                c1: s.c,
                d1: s.d,
                e1: s.e,
                h1: s.h,
                l1: s.l,
                pc: s.next_pc(1),
                ..s
            },
        )
    }
}

/// EX (SP),w: the word on top of the stack trades places with a register.
pub open spec fn ex_sp_step(s: CpuView, w: Wide, len: int) -> Result<CpuView, CpuError> {
    if s.len() == 0 || !word_readable(s, s.sp as int) {
        Err(CpuError::AddressOutOfRange)
    } else {
        Ok(with_word(with_wide(s, w, mem_word(s, s.sp as int)), s.sp as int, wide(s, w)).with_pc(
            s.next_pc(len),
        ))
    }
}

/// One LDI (`inc`) or LDD iteration: (DE) takes (HL), HL and DE move, BC drops, PV tells BC != 0.
#[verifier::opaque]
pub open spec fn ld_block(s: CpuView, inc: bool) -> CpuView {
    let t = s.with_byte(s.de() as int, s.byte(s.hl() as int)).with_reg16(
        Register16::hl,
        step16(s.hl(), inc),
    ).with_reg16(Register16::de, step16(s.de(), inc)).with_reg16(Register16::bc, dec16(s.bc()));
    t.with_f(pack_flags(s.f, flag_s(s.f), flag_z(s.f), false, dec16(s.bc()) != 0, false, flag_c(s.f)))
}

/// `k` more iterations of LDIR or LDDR at most, ending once BC reaches zero.
#[verifier::opaque]
pub open spec fn ld_run(s: CpuView, inc: bool, k: nat) -> CpuView
    decreases k,
{
    if k == 0 {
        s
    } else {
        let t = ld_block(s, inc);
        if t.bc() == 0 {
            t
        } else {
            ld_run(t, inc, (k - 1) as nat)
        }
    }
}

/// Whether the bytes that `k` iterations of LDIR or LDDR would touch lie in a buffer of `len`.
#[verifier::opaque]
pub open spec fn ld_run_ok(len: int, hl: u16, de: u16, bc: u16, inc: bool, k: nat) -> bool
    decreases k,
{
    if k == 0 {
        true
    } else {
        hl < len && de < len && (dec16(bc) == 0 || ld_run_ok(
            len,
            step16(hl, inc),
            step16(de, inc),
            dec16(bc),
            inc,
            (k - 1) as nat,
        ))
    }
}

/// LDI or LDD.
pub open spec fn ld_step(s: CpuView, inc: bool) -> Result<CpuView, CpuError> {
    if s.len() == 0 || !s.readable(s.hl() as int) || !s.readable(s.de() as int) {
        Err(CpuError::AddressOutOfRange)
    } else {
        Ok(ld_block(s, inc).with_pc(s.next_pc(2)))
    }
}

/// LDIR or LDDR: LDI or LDD repeated until BC reaches zero.
pub open spec fn ld_repeat_step(s: CpuView, inc: bool) -> Result<CpuView, CpuError> {
    if s.len() == 0 || !ld_run_ok(s.len(), s.hl(), s.de(), s.bc(), inc, BLOCK_LIMIT as nat) {
        Err(CpuError::AddressOutOfRange)
    } else {
        Ok(ld_run(s, inc, BLOCK_LIMIT as nat).with_pc(s.next_pc(2)))
    }
}

/// One iteration of LDIR (`inc`) or LDDR: PC stays on the instruction until BC reaches zero, so
/// that a driver can take an interrupt between iterations.
pub open spec fn ld_repeat_once_step(s: CpuView, inc: bool) -> Result<CpuView, CpuError> {
    if s.len() == 0 || !s.readable(s.hl() as int) || !s.readable(s.de() as int) {
        Err(CpuError::AddressOutOfRange)
    } else if ld_block(s, inc).bc() == 0 {
        Ok(ld_block(s, inc).with_pc(s.next_pc(2)))
    } else {
        Ok(ld_block(s, inc))
    }
}

/// One CPI (`inc`) or CPD iteration: A is compared with (HL), HL moves, BC drops.
pub open spec fn cp_block(s: CpuView, inc: bool) -> CpuView {
    let v = s.byte(s.hl() as int);
    let r = sub_result(s.a, v, 0);
    let f = pack_flags(s.f, r >= 128, r == 0, half_borrow_sub(s.a, v, 0), dec16(s.bc()) != 0, true, flag_c(s.f));
    s.with_reg16(Register16::hl, step16(s.hl(), inc)).with_reg16(Register16::bc, dec16(s.bc())).with_f(f)
}

/// Whether CPIR or CPDR stops after an iteration that left the state `t`: BC is zero or A matched.
pub open spec fn cp_done(t: CpuView) -> bool {
    t.bc() == 0 || flag_z(t.f)
}

/// `k` more iterations of CPIR or CPDR at most.
#[verifier::opaque]
pub open spec fn cp_run(s: CpuView, inc: bool, k: nat) -> CpuView
    decreases k,
{
    if k == 0 {
        s
    } else {
        let t = cp_block(s, inc);
        if cp_done(t) {
            t
        } else {
            cp_run(t, inc, (k - 1) as nat)
        }
    }
}

/// Whether every byte that `k` iterations of CPIR or CPDR would read lies in the buffer.
#[verifier::opaque]
pub open spec fn cp_run_ok(s: CpuView, inc: bool, k: nat) -> bool
    decreases k,
{
    if k == 0 {
        true
    } else {
        s.readable(s.hl() as int) && (cp_done(cp_block(s, inc)) || cp_run_ok(
            cp_block(s, inc),
            inc,
            (k - 1) as nat,
        ))
    }
}

/// One iteration of CPIR (`inc`) or CPDR: PC stays on the instruction until BC reaches zero or A
/// matches, so that a driver can take an interrupt between iterations.
pub open spec fn cp_repeat_once_step(s: CpuView, inc: bool) -> Result<CpuView, CpuError> {
    if s.len() == 0 || !s.readable(s.hl() as int) {
        Err(CpuError::AddressOutOfRange)
    } else if cp_done(cp_block(s, inc)) {
        Ok(cp_block(s, inc).with_pc(s.next_pc(2)))
    } else {
        Ok(cp_block(s, inc))
    }
}

/// CPI or CPD.
pub open spec fn cp_step(s: CpuView, inc: bool) -> Result<CpuView, CpuError> {
    if s.len() == 0 || !s.readable(s.hl() as int) {
        Err(CpuError::AddressOutOfRange)
    } else {
        Ok(cp_block(s, inc).with_pc(s.next_pc(2)))
    }
}

/// CPIR or CPDR: CPI or CPD repeated until BC reaches zero or A matches.
pub open spec fn cp_repeat_step(s: CpuView, inc: bool) -> Result<CpuView, CpuError> {
    if s.len() == 0 || !cp_run_ok(s, inc, BLOCK_LIMIT as nat) {
        Err(CpuError::AddressOutOfRange)
    } else {
        Ok(cp_run(s, inc, BLOCK_LIMIT as nat).with_pc(s.next_pc(2)))
    }
}

/// What one LDI or LDD iteration does to HL, DE, BC, PC and the buffer's length.
pub proof fn lemma_ld_block(s: CpuView, inc: bool)
    requires
        s.readable(s.de() as int),
    ensures
        ld_block(s, inc).memory == s.memory.update(s.de() as int, s.byte(s.hl() as int)),
        flag_pv(ld_block(s, inc).f) == (dec16(s.bc()) != 0),
        ld_block(s, inc).hl() == step16(s.hl(), inc),
        ld_block(s, inc).de() == step16(s.de(), inc),
        ld_block(s, inc).bc() == dec16(s.bc()),
        ld_block(s, inc).pc == s.pc,
        ld_block(s, inc).len() == s.len(),
{
    reveal(ld_block);
    crate::cpu::lemma_pack_flags(s.f, flag_s(s.f), flag_z(s.f), false, dec16(s.bc()) != 0, false, flag_c(s.f));
    crate::bytes::lemma_demote_promote(step16(s.hl(), inc));
    crate::bytes::lemma_demote_promote(step16(s.de(), inc));
    crate::bytes::lemma_demote_promote(dec16(s.bc()));
}

/// One more iteration of LDIR or LDDR, unfolded.
proof fn lemma_ld_run_unfold(s: CpuView, inc: bool, k: nat)
    requires
        k > 0,
        ld_run_ok(s.len(), s.hl(), s.de(), s.bc(), inc, k),
    ensures
        s.readable(s.hl() as int),
        s.readable(s.de() as int),
        ld_run(s, inc, k) == (if ld_block(s, inc).bc() == 0 {
            ld_block(s, inc)
        } else {
            ld_run(ld_block(s, inc), inc, (k - 1) as nat)
        }),
        ld_block(s, inc).bc() != 0 ==> ld_run_ok(
            ld_block(s, inc).len(),
            ld_block(s, inc).hl(),
            ld_block(s, inc).de(),
            ld_block(s, inc).bc(),
            inc,
            (k - 1) as nat,
        ),
{
    reveal_with_fuel(ld_run, 1);
    reveal_with_fuel(ld_run_ok, 1);
    lemma_ld_block(s, inc);
}

/// One more iteration of LDIR or LDDR, unfolded, whether or not the bytes lie in the buffer.
pub proof fn lemma_ld_run_unfold_law(s: CpuView, inc: bool, k: nat)
    requires
        k > 0,
    ensures
        ld_run(s, inc, k) == (if ld_block(s, inc).bc() == 0 {
            ld_block(s, inc)
        } else {
            ld_run(ld_block(s, inc), inc, (k - 1) as nat)
        }),
{
    reveal_with_fuel(ld_run, 1);
}

/// One more iteration of CPIR or CPDR, unfolded.
proof fn lemma_cp_run_unfold(s: CpuView, inc: bool, k: nat)
    requires
        k > 0,
    ensures
        cp_run(s, inc, k) == (if cp_done(cp_block(s, inc)) {
            cp_block(s, inc)
        } else {
            cp_run(cp_block(s, inc), inc, (k - 1) as nat)
        }),
        cp_run_ok(s, inc, k) == (s.readable(s.hl() as int) && (cp_done(cp_block(s, inc))
            || cp_run_ok(cp_block(s, inc), inc, (k - 1) as nat))),
{
    reveal_with_fuel(cp_run, 1);
    reveal_with_fuel(cp_run_ok, 1);
}

/// LDIR and LDDR keep PC and the buffer's length.
proof fn lemma_ld_run_frame(s: CpuView, inc: bool, k: nat)
    requires
        ld_run_ok(s.len(), s.hl(), s.de(), s.bc(), inc, k),
    ensures
        ld_run(s, inc, k).pc == s.pc,
        ld_run(s, inc, k).len() == s.len(),
    decreases k,
{
    if k == 0 {
        lemma_ld_run_end(s, inc);
    } else {
        lemma_ld_run_unfold(s, inc, k);
        lemma_ld_block(s, inc);
        if ld_block(s, inc).bc() != 0 {
            lemma_ld_run_frame(ld_block(s, inc), inc, (k - 1) as nat);
        }
    }
}

/// CPIR and CPDR keep PC and the buffer.
proof fn lemma_cp_run_frame(s: CpuView, inc: bool, k: nat)
    ensures
        cp_run(s, inc, k).pc == s.pc,
        cp_run(s, inc, k).memory == s.memory,
    decreases k,
{
    if k == 0 {
        lemma_ld_run_end(s, inc);
    } else {
        lemma_cp_run_unfold(s, inc, k);
        lemma_cp_block(s, inc);
        if !cp_done(cp_block(s, inc)) {
            lemma_cp_run_frame(cp_block(s, inc), inc, (k - 1) as nat);
        }
    }
}

/// LDIR or LDDR stops after an iteration that leaves BC at zero; no iterations are left at the end.
proof fn lemma_ld_run_end(s: CpuView, inc: bool)
    ensures
        ld_run(s, inc, 0) == s,
        ld_run_ok(s.len(), s.hl(), s.de(), s.bc(), inc, 0),
        cp_run(s, inc, 0) == s,
        cp_run_ok(s, inc, 0),
{
    reveal_with_fuel(ld_run, 1);
    reveal_with_fuel(ld_run_ok, 1);
    reveal_with_fuel(cp_run, 1);
    reveal_with_fuel(cp_run_ok, 1);
}

/// One step of the check that LDIR or LDDR stays in the buffer.
pub proof fn lemma_ld_run_ok_unfold(len: int, hl: u16, de: u16, bc: u16, inc: bool, k: nat)
    requires
        k > 0,
    ensures
        ld_run_ok(len, hl, de, bc, inc, k) == (hl < len && de < len && (dec16(bc) == 0 || ld_run_ok(
            len,
            step16(hl, inc),
            step16(de, inc),
            dec16(bc),
            inc,
            (k - 1) as nat,
        ))),
{
    reveal_with_fuel(ld_run_ok, 1);
}

/// One CPI or CPD iteration changes only H, L, B, C and F, and moves HL and BC by one.
pub proof fn lemma_cp_block(s: CpuView, inc: bool)
    ensures
        cp_block(s, inc) == (CpuView {
            h: cp_block(s, inc).h,
            l: cp_block(s, inc).l,
            b: cp_block(s, inc).b,
            c: cp_block(s, inc).c,
            f: cp_block(s, inc).f,
            ..s
        }),
        cp_block(s, inc).hl() == step16(s.hl(), inc),
        cp_block(s, inc).bc() == dec16(s.bc()),
{
    crate::bytes::lemma_demote_promote(step16(s.hl(), inc));
    crate::bytes::lemma_demote_promote(dec16(s.bc()));
}

impl Cpu {
    /// One step up (`inc`) or down, on 16 bits.
    fn step16(x: u16, inc: bool) -> (r: u16)
        ensures
            r == step16(x, inc),
    {
        if inc {
            ((x as u32 + 1) % 0x10000) as u16
        } else {
            ((x as u32 + 0xffff) % 0x10000) as u16
        }
    }

    /// One LDI or LDD iteration, without moving PC.
    fn ld_once(&mut self, inc: bool)
        requires
            old(self)@.readable(old(self)@.hl() as int),
            old(self)@.readable(old(self)@.de() as int),
        ensures
            final(self)@ == ld_block(old(self)@, inc),
            final(self).memory.len() == old(self).memory.len(),
            final(self).pc == old(self).pc,
    {
        reveal(ld_block);
        let hl = self.read_hl();
        let de = self.read_de();
        let bc = Self::step16(self.read_bc(), false);
        let v = self.memory[hl as usize];
        self.store(de as usize, v);
        self.write_hl(Self::step16(hl, inc));
        self.write_de(Self::step16(de, inc));
        self.write_bc(bc);
        let s = self.get_s();
        let z = self.get_z();
        let c = self.get_c();
        self.set_flags(s, z, false, bc != 0, false, c);
    }

    /// One CPI or CPD iteration, without moving PC.
    fn cp_once(&mut self, inc: bool)
        requires
            old(self)@.readable(old(self)@.hl() as int),
        ensures
            final(self)@ == cp_block(old(self)@, inc),
    {
        let hl = self.read_hl();
        let bc = Self::step16(self.read_bc(), false);
        let v = self.memory[hl as usize];
        let a = self.a;
        let r = ((a as u16 + 256 - v as u16) % 256) as u8;
        let h = a % 16 < v % 16;
        let c = self.get_c();
        self.write_hl(Self::step16(hl, inc));
        self.write_bc(bc);
        self.set_flags(r >= 128, r == 0, h, bc != 0, true, c);
    }

    /// Whether every byte that LDIR or LDDR would touch lies in the buffer.
    fn ld_check(&self, inc: bool) -> (r: bool)
        ensures
            r == ld_run_ok(self@.len(), self@.hl(), self@.de(), self@.bc(), inc, BLOCK_LIMIT as nat),
    {
        let len = self.memory.len();
        let mut hl = self.read_hl();
        let mut de = self.read_de();
        let mut bc = self.read_bc();
        let mut i: u32 = 0;
        while i < BLOCK_LIMIT
            invariant
                i <= BLOCK_LIMIT,
                len == self.memory.len(),
                ld_run_ok(len as int, self@.hl(), self@.de(), self@.bc(), inc, BLOCK_LIMIT as nat)
                    == ld_run_ok(len as int, hl, de, bc, inc, (BLOCK_LIMIT - i) as nat),
            decreases BLOCK_LIMIT - i,
        {
            proof {
                lemma_ld_run_ok_unfold(len as int, hl, de, bc, inc, (BLOCK_LIMIT - i) as nat);
            }
            if hl as usize >= len || de as usize >= len {
                return false;
            }
            let next = Self::step16(bc, false);
            if next == 0 {
                return true;
            }
            hl = Self::step16(hl, inc);
            de = Self::step16(de, inc);
            bc = next;
            i = i + 1;
        }
        proof {
            lemma_ld_run_end(self@, inc);
            reveal_with_fuel(ld_run_ok, 1);
        }
        true
    }

    /// Runs LDIR or LDDR to the end, without moving PC.
    fn ld_run(&mut self, inc: bool)
        requires
            ld_run_ok(old(self)@.len(), old(self)@.hl(), old(self)@.de(), old(self)@.bc(), inc, BLOCK_LIMIT as nat),
        ensures
            final(self)@ == ld_run(old(self)@, inc, BLOCK_LIMIT as nat),
    {
        let ghost s0 = self@;
        let mut k: u32 = 0;
        while k < BLOCK_LIMIT
            invariant
                k <= BLOCK_LIMIT,
                s0 == old(self)@,
                ld_run(s0, inc, BLOCK_LIMIT as nat) == ld_run(self@, inc, (BLOCK_LIMIT - k) as nat),
                ld_run_ok(self@.len(), self@.hl(), self@.de(), self@.bc(), inc, (BLOCK_LIMIT - k) as nat),
            decreases BLOCK_LIMIT - k,
        {
            let ghost prev = self@;
            let ghost left = (BLOCK_LIMIT - k) as nat;
            proof {
                lemma_ld_run_unfold(prev, inc, left);
            }
            self.ld_once(inc);
            k = k + 1;
            if self.read_bc() == 0 {
                assert(ld_run(prev, inc, left) == self@);
                return;
            }
        }
        proof {
            lemma_ld_run_end(self@, inc);
        }
    }

    /// LDIR or LDDR.
    fn ld_repeat(&mut self, inc: bool) -> (r: Result<(), CpuError>)
        ensures
            outcome(old(self)@, final(self)@, r, ld_repeat_step(old(self)@, inc)),
    {
        if self.memory.len() == 0 || !self.ld_check(inc) {
            return Err(CpuError::AddressOutOfRange);
        }
        let ghost s0 = self@;
        self.ld_run(inc);
        assert(self@.pc == s0.pc && self@.len() == s0.len()) by {
            lemma_ld_run_frame(s0, inc, BLOCK_LIMIT as nat);
        }
        self.incr_pc(2);
        Ok(())
    }

    /// Runs CPIR or CPDR to the end, without moving PC; on a byte outside the buffer nothing
    /// changes.
    fn cp_run(&mut self, inc: bool) -> (ok: bool)
        ensures
            ok == cp_run_ok(old(self)@, inc, BLOCK_LIMIT as nat),
            ok ==> final(self)@ == cp_run(old(self)@, inc, BLOCK_LIMIT as nat),
            !ok ==> final(self)@ == old(self)@,
    {
        let ghost s0 = self@;
        let (h, l, b, c, f) = (self.h, self.l, self.b, self.c, self.f);
        let mut k: u32 = 0;
        while k < BLOCK_LIMIT
            invariant
                k <= BLOCK_LIMIT,
                s0 == old(self)@,
                s0 == (CpuView { h, l, b, c, f, ..s0 }),
                self@ == (CpuView { h: self.h, l: self.l, b: self.b, c: self.c, f: self.f, ..s0 }),
                cp_run(s0, inc, BLOCK_LIMIT as nat) == cp_run(self@, inc, (BLOCK_LIMIT - k) as nat),
                cp_run_ok(s0, inc, BLOCK_LIMIT as nat) == cp_run_ok(self@, inc, (BLOCK_LIMIT - k) as nat),
            decreases BLOCK_LIMIT - k,
        {
            let ghost prev = self@;
            let ghost left = (BLOCK_LIMIT - k) as nat;
            proof {
                lemma_cp_run_unfold(prev, inc, left);
            }
            if self.read_hl() as usize >= self.memory.len() {
                assert(!cp_run_ok(prev, inc, left));
                self.h = h;
                self.l = l;
                self.b = b;
                self.c = c;
                self.f = f;
                return false;
            }
            self.cp_once(inc);
            proof {
                lemma_cp_block(prev, inc);
            }
            k = k + 1;
            if self.read_bc() == 0 || self.get_z() {
                assert(cp_run(prev, inc, left) == self@);
                return true;
            }
        }
        proof {
            lemma_ld_run_end(self@, inc);
        }
        true
    }

    /// CPIR or CPDR.
    fn cp_repeat(&mut self, inc: bool) -> (r: Result<(), CpuError>)
        ensures
            outcome(old(self)@, final(self)@, r, cp_repeat_step(old(self)@, inc)),
    {
        if self.memory.len() == 0 {
            return Err(CpuError::AddressOutOfRange);
        }
        let ghost s0 = self@;
        if !self.cp_run(inc) {
            return Err(CpuError::AddressOutOfRange);
        }
        assert(self@.pc == s0.pc && self@.len() == s0.len()) by {
            lemma_cp_run_frame(s0, inc, BLOCK_LIMIT as nat);
        }
        self.incr_pc(2);
        Ok(())
    }

    fn ex_sp(&mut self, w: Wide, len: u16) -> (r: Result<(), CpuError>)
        ensures
            outcome(old(self)@, final(self)@, r, ex_sp_step(old(self)@, w, len as int)),
    {
        if self.memory.len() == 0 {
            return Err(CpuError::AddressOutOfRange);
        }
        let sp = self.sp;
        match self.read_word(sp) {
            Ok(top) => {
                let v = self.read_wide(w);
                self.write_wide(w, top);
                self.write_word(sp, v);
                self.incr_pc(len);
                Ok(())
            },
            Err(e) => Err(e),
        }
    }

    /// EX DE, HL
    pub fn ex_de_hl(&mut self) -> (r: Result<(), CpuError>)
        ensures
            outcome(old(self)@, final(self)@, r, ex_de_hl_step(old(self)@)),
    {
        if self.memory.len() == 0 {
            return Err(CpuError::AddressOutOfRange);
        }
        let (d, e) = (self.d, self.e);
        self.d = self.h;
        self.e = self.l;
        self.h = d;
        self.l = e;
        self.incr_pc(1);
        Ok(())
    }

    /// EX AF, AF'
    pub fn ex_af_af1(&mut self) -> (r: Result<(), CpuError>)
        ensures
            outcome(old(self)@, final(self)@, r, ex_af_step(old(self)@)),
    {
        if self.memory.len() == 0 {
            return Err(CpuError::AddressOutOfRange);
        }
        let (a, f) = (self.a, self.f);
        self.a = self.a1;
        self.f = self.f1;
        self.a1 = a;
        self.f1 = f;
        self.incr_pc(1);
        Ok(())
    }

    /// EXX
    pub fn exx(&mut self) -> (r: Result<(), CpuError>)
        ensures
            outcome(old(self)@, final(self)@, r, exx_step(old(self)@)),
    {
        if self.memory.len() == 0 {
            return Err(CpuError::AddressOutOfRange);
        }
        let (b, c, d, e, h, l) = (self.b, self.c, self.d, self.e, self.h, self.l);
        self.b = self.b1;
        self.c = self.c1;
        self.d = self.d1;
        self.e = self.e1;
        self.h = self.h1;
        self.l = self.l1;
        self.b1 = b;
        self.c1 = c;
        self.d1 = d;
        self.e1 = e;
        self.h1 = h;
        self.l1 = l;
        self.incr_pc(1);
        Ok(())
    }

    /// EX (SP), HL
    pub fn ex_spi_hl(&mut self) -> (r: Result<(), CpuError>)
        ensures
            outcome(old(self)@, final(self)@, r, ex_sp_step(old(self)@, Wide::Pair(Register16::hl), 1)),
    {
        self.ex_sp(Wide::Pair(Register16::hl), 1)
    }

    /// EX (SP), IX
    pub fn ex_spi_ix(&mut self) -> (r: Result<(), CpuError>)
        ensures
            outcome(old(self)@, final(self)@, r, ex_sp_step(old(self)@, Wide::Ix, 2)),
    {
        self.ex_sp(Wide::Ix, 2)
    }

    /// EX (SP), IY
    pub fn ex_spi_iy(&mut self) -> (r: Result<(), CpuError>)
        ensures
            outcome(old(self)@, final(self)@, r, ex_sp_step(old(self)@, Wide::Iy, 2)),
    {
        self.ex_sp(Wide::Iy, 2)
    }

    /// LDI
    pub fn ldi(&mut self) -> (r: Result<(), CpuError>)
        ensures
            outcome(old(self)@, final(self)@, r, ld_step(old(self)@, true)),
    {
        if self.memory.len() == 0 {
            return Err(CpuError::AddressOutOfRange);
        }
        let len = self.memory.len();
        if self.read_hl() as usize >= len || self.read_de() as usize >= len {
            return Err(CpuError::AddressOutOfRange);
        }
        self.ld_once(true);
        self.incr_pc(2);
        Ok(())
    }

    /// LDIR
    pub fn ldir(&mut self) -> (r: Result<(), CpuError>)
        ensures
            outcome(old(self)@, final(self)@, r, ld_repeat_step(old(self)@, true)),
    {
        self.ld_repeat(true)
    }

    /// LDD
    pub fn ldd(&mut self) -> (r: Result<(), CpuError>)
        ensures
            outcome(old(self)@, final(self)@, r, ld_step(old(self)@, false)),
    {
        if self.memory.len() == 0 {
            return Err(CpuError::AddressOutOfRange);
        }
        let len = self.memory.len();
        if self.read_hl() as usize >= len || self.read_de() as usize >= len {
            return Err(CpuError::AddressOutOfRange);
        }
        self.ld_once(false);
        self.incr_pc(2);
        Ok(())
    }

    /// LDDR
    pub fn lddr(&mut self) -> (r: Result<(), CpuError>)
        ensures
            outcome(old(self)@, final(self)@, r, ld_repeat_step(old(self)@, false)),
    {
        self.ld_repeat(false)
    }

    /// CPI
    pub fn cpi(&mut self) -> (r: Result<(), CpuError>)
        ensures
            outcome(old(self)@, final(self)@, r, cp_step(old(self)@, true)),
    {
        if self.memory.len() == 0 {
            return Err(CpuError::AddressOutOfRange);
        }
        if self.read_hl() as usize >= self.memory.len() {
            return Err(CpuError::AddressOutOfRange);
        }
        self.cp_once(true);
        self.incr_pc(2);
        Ok(())
    }

    /// CPIR
    pub fn cpir(&mut self) -> (r: Result<(), CpuError>)
        ensures
            outcome(old(self)@, final(self)@, r, cp_repeat_step(old(self)@, true)),
    {
        self.cp_repeat(true)
    }

    /// CPD
    pub fn cpd(&mut self) -> (r: Result<(), CpuError>)
        ensures
            outcome(old(self)@, final(self)@, r, cp_step(old(self)@, false)),
    {
        if self.memory.len() == 0 {
            return Err(CpuError::AddressOutOfRange);
        }
        if self.read_hl() as usize >= self.memory.len() {
            return Err(CpuError::AddressOutOfRange);
        }
        self.cp_once(false);
        self.incr_pc(2);
        Ok(())
    }

    /// CPDR
    pub fn cpdr(&mut self) -> (r: Result<(), CpuError>)
        ensures
            outcome(old(self)@, final(self)@, r, cp_repeat_step(old(self)@, false)),
    {
        self.cp_repeat(false)
    }

    /// One iteration of LDIR; PC moves past the instruction only on its last iteration.
    pub fn ldir_step(&mut self) -> (r: Result<(), CpuError>)
        ensures
            outcome(old(self)@, final(self)@, r, ld_repeat_once_step(old(self)@, true)),
    {
        let len = self.memory.len();
        if len == 0 || self.read_hl() as usize >= len || self.read_de() as usize >= len {
            return Err(CpuError::AddressOutOfRange);
        }
        let ghost s0 = self@;
        self.ld_once(true);
        proof {
            lemma_ld_block(s0, true);
        }
        if self.read_bc() == 0 {
            self.incr_pc(2);
        }
        Ok(())
    }

    /// One iteration of LDDR; PC moves past the instruction only on its last iteration.
    pub fn lddr_step(&mut self) -> (r: Result<(), CpuError>)
        ensures
            outcome(old(self)@, final(self)@, r, ld_repeat_once_step(old(self)@, false)),
    {
        let len = self.memory.len();
        if len == 0 || self.read_hl() as usize >= len || self.read_de() as usize >= len {
            return Err(CpuError::AddressOutOfRange);
        }
        let ghost s0 = self@;
        self.ld_once(false);
        proof {
            lemma_ld_block(s0, false);
        }
        if self.read_bc() == 0 {
            self.incr_pc(2);
        }
        Ok(())
    }

    /// One iteration of CPIR; PC moves past the instruction only on its last iteration.
    pub fn cpir_step(&mut self) -> (r: Result<(), CpuError>)
        ensures
            outcome(old(self)@, final(self)@, r, cp_repeat_once_step(old(self)@, true)),
    {
        let len = self.memory.len();
        if len == 0 || self.read_hl() as usize >= len {
            return Err(CpuError::AddressOutOfRange);
        }
        let ghost s0 = self@;
        self.cp_once(true);
        proof {
            lemma_cp_block(s0, true);
        }
        if self.read_bc() == 0 || self.get_z() {
            self.incr_pc(2);
        }
        Ok(())
    }

    /// One iteration of CPDR; PC moves past the instruction only on its last iteration.
    pub fn cpdr_step(&mut self) -> (r: Result<(), CpuError>)
        ensures
            outcome(old(self)@, final(self)@, r, cp_repeat_once_step(old(self)@, false)),
    {
        let len = self.memory.len();
        if len == 0 || self.read_hl() as usize >= len {
            return Err(CpuError::AddressOutOfRange);
        }
        let ghost s0 = self@;
        self.cp_once(false);
        proof {
            lemma_cp_block(s0, false);
        }
        if self.read_bc() == 0 || self.get_z() {
            self.incr_pc(2);
        }
        Ok(())
    }
}

} // verus!

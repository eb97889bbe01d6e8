//! The 8-bit and 16-bit load groups, and the stack.

use vstd::prelude::*;
use crate::bytes::{high_of, low_of, word_of};
use crate::cpu::{
    displaced, flag_c, pack_flags, register_of, Cpu, CpuError, CpuView, Register, Register16,
    outcome,
};
use crate::operand::{mem_operand, reg_operand};
use crate::registers::pair_of;

verus! {

/// A 16-bit register: a pair (or SP), or an index register.
#[derive(Debug, Clone, Copy, PartialEq, Eq, Structural)]
pub enum Wide {
    Pair(Register16),
    Ix,
    Iy,
}

/// The register named by a 3-bit field, or the error for the field 0b110.
pub open spec fn reg_field(field: u8) -> Result<Register, CpuError> {
    match register_of(field) {
        Some(r) => Ok(r),
        None => Err(CpuError::IllegalInstruction),
    }
}

pub open spec fn wide(s: CpuView, w: Wide) -> u16 {
    match w {
        Wide::Pair(p) => s.reg16(p),
        Wide::Ix => s.ix,
        Wide::Iy => s.iy,
    }
}

pub open spec fn with_wide(s: CpuView, w: Wide, v: u16) -> CpuView {
    match w {
        Wide::Pair(p) => s.with_reg16(p, v),
        Wide::Ix => CpuView { ix: v, ..s },
        Wide::Iy => CpuView { iy: v, ..s },
    }
}

/// The address after `addr`, on 16 bits.
pub open spec fn next_addr(addr: int) -> int {
    (addr + 1) % 0x10000
}

/// Whether both bytes of the word at `addr` lie in the buffer.
pub open spec fn word_readable(s: CpuView, addr: int) -> bool {
    s.readable(addr) && s.readable(next_addr(addr))
}

/// The little-endian word at `addr`.
pub open spec fn mem_word(s: CpuView, addr: int) -> u16 {
    word_of(s.byte(next_addr(addr)), s.byte(addr))
}

/// The state with the little-endian word `v` written at `addr`.
pub open spec fn with_word(s: CpuView, addr: int, v: u16) -> CpuView {
    s.with_byte(addr, low_of(v)).with_byte(next_addr(addr), high_of(v))
}

/// The word at `addr`, or the error for an address outside the buffer.
pub open spec fn word_operand(s: CpuView, addr: int) -> Result<u16, CpuError> {
    if word_readable(s, addr) {
        Ok(mem_word(s, addr))
    } else {
        Err(CpuError::AddressOutOfRange)
    }
}

/// Loads an 8-bit register and moves PC on.
pub open spec fn load_reg_step(
    s: CpuView,
    dest: Result<Register, CpuError>,
    v: Result<u8, CpuError>,
    len: int,
) -> Result<CpuView, CpuError> {
    if s.len() == 0 {
        Err(CpuError::AddressOutOfRange)
    } else {
        match dest {
            Err(e) => Err(e),
            Ok(r) => match v {
                Ok(x) => Ok(s.with_reg(r, x).with_pc(s.next_pc(len))),
                Err(e) => Err(e),
            },
        }
    }
}

/// Stores a byte in memory and moves PC on.
pub open spec fn store_step(s: CpuView, addr: int, v: Result<u8, CpuError>, len: int) -> Result<
    CpuView,
    CpuError,
> {
    if s.len() == 0 {
        Err(CpuError::AddressOutOfRange)
    } else {
        match v {
            Err(e) => Err(e),
            Ok(x) => if s.readable(addr) {
                Ok(s.with_byte(addr, x).with_pc(s.next_pc(len)))
            } else {
                Err(CpuError::AddressOutOfRange)
            },
        }
    }
}

/// Loads a 16-bit register and moves PC on.
pub open spec fn load_wide_step(s: CpuView, w: Wide, v: Result<u16, CpuError>, len: int) -> Result<
    CpuView,
    CpuError,
> {
    if s.len() == 0 {
        Err(CpuError::AddressOutOfRange)
    } else {
        match v {
            Ok(x) => Ok(with_wide(s, w, x).with_pc(s.next_pc(len))),
            Err(e) => Err(e),
        }
    }
}

/// Stores a 16-bit register at an address and moves PC on.
pub open spec fn store_wide_step(s: CpuView, addr: int, w: Wide, len: int) -> Result<CpuView, CpuError> {
    if s.len() == 0 || !word_readable(s, addr) {
        Err(CpuError::AddressOutOfRange)
    } else {
        Ok(with_word(s, addr, wide(s, w)).with_pc(s.next_pc(len)))
    }
}

/// LD A,I and LD A,R: A is loaded, PV takes IFF2, H and N are reset, C is kept.
pub open spec fn load_a_special_step(s: CpuView, v: u8) -> Result<CpuView, CpuError> {
    if s.len() == 0 {
        Err(CpuError::AddressOutOfRange)
    } else {
        let f = pack_flags(s.f, v >= 128, v == 0, false, s.iff2, false, flag_c(s.f));
        Ok(CpuView { a: v, f, pc: s.next_pc(2), ..s })
    }
}

/// The two stack addresses that a push writes: SP-1 and SP-2 on 16 bits.
pub open spec fn push_addrs(s: CpuView) -> (int, int) {
    ((s.sp - 1) % 0x10000, (s.sp - 2) % 0x10000)
}

/// Pushes a word: its high byte at SP-1, its low byte at SP-2, and SP drops by two.
pub open spec fn push_word(s: CpuView, v: u16) -> Result<CpuView, CpuError> {
    let (hi, lo) = push_addrs(s);
    if s.readable(hi) && s.readable(lo) {
        Ok(CpuView { sp: lo as u16, ..s.with_byte(hi, high_of(v)).with_byte(lo, low_of(v)) })
    } else {
        Err(CpuError::AddressOutOfRange)
    }
}

/// The word on top of the stack: low byte at SP, high byte at SP+1.
pub open spec fn stack_top(s: CpuView) -> Result<u16, CpuError> {
    word_operand(s, s.sp as int)
}

/// The state after a pop: SP rises by two.
pub open spec fn popped(s: CpuView) -> CpuView {
    CpuView { sp: ((s.sp + 2) % 0x10000) as u16, ..s }
}

/// PUSH: the register is pushed and PC moves on.
pub open spec fn push_step(s: CpuView, w: Wide, len: int) -> Result<CpuView, CpuError> {
    if s.len() == 0 {
        Err(CpuError::AddressOutOfRange)
    } else {
        match push_word(s, wide(s, w)) {
            Ok(t) => Ok(t.with_pc(s.next_pc(len))),
            Err(e) => Err(e),
        }
    }
}

/// POP: the register takes the top of the stack and PC moves on.
pub open spec fn pop_step(s: CpuView, w: Wide, len: int) -> Result<CpuView, CpuError> {
    if s.len() == 0 {
        Err(CpuError::AddressOutOfRange)
    } else {
        match stack_top(s) {
            Ok(v) => Ok(with_wide(popped(s), w, v).with_pc(s.next_pc(len))),
            Err(e) => Err(e),
        }
    }
}

impl Cpu {
    /// The 16-bit register `w`.
    pub fn read_wide(&self, w: Wide) -> (r: u16)
        ensures
            r == wide(self@, w),
    {
        match w {
            Wide::Pair(p) => self.read16(p),
            Wide::Ix => self.ix,
            Wide::Iy => self.iy,
        }
    }

    /// Overwrites the 16-bit register `w`.
    pub fn write_wide(&mut self, w: Wide, v: u16)
        ensures
            final(self)@ == with_wide(old(self)@, w, v),
    {
        match w {
            Wide::Pair(p) => self.write16(p, v),
            Wide::Ix => self.ix = v,
            Wide::Iy => self.iy = v,
        }
    }

    /// The address after `addr`, on 16 bits.
    fn next_addr(addr: usize) -> (r: usize)
        requires
            addr < 0x10000,
        ensures
            r as int == next_addr(addr as int),
    {
        (addr + 1) % 0x10000
    }

    /// The little-endian word at `addr`, if both its bytes lie in the buffer.
    pub fn read_word(&self, addr: u16) -> (r: Result<u16, CpuError>)
        ensures
            r == word_operand(self@, addr as int),
    {
        let hi_addr = Self::next_addr(addr as usize);
        if (addr as usize) < self.memory.len() && hi_addr < self.memory.len() {
            Ok(crate::bytes::promote(self.memory[hi_addr], self.memory[addr as usize]))
        } else {
            Err(CpuError::AddressOutOfRange)
        }
    }

    /// Writes a little-endian word at `addr`, known to lie in the buffer with the next byte.
    pub(crate) fn write_word(&mut self, addr: u16, v: u16)
        requires
            word_readable(old(self)@, addr as int),
        ensures
            final(self)@ == with_word(old(self)@, addr as int, v),
    {
        self.store(addr as usize, crate::bytes::low(v));
        self.store(Self::next_addr(addr as usize), crate::bytes::high(v));
    }

    /// Pushes a word on the stack.
    pub fn push(&mut self, v: u16) -> (r: Result<(), CpuError>)
        ensures
            outcome(old(self)@, final(self)@, r, push_word(old(self)@, v)),
    {
        let hi = ((self.sp as usize + 0xffff) % 0x10000) as usize;
        let lo = ((self.sp as usize + 0xfffe) % 0x10000) as usize;
        if hi < self.memory.len() && lo < self.memory.len() {
            self.store(hi, crate::bytes::high(v));
            self.store(lo, crate::bytes::low(v));
            self.sp = lo as u16;
            Ok(())
        } else {
            Err(CpuError::AddressOutOfRange)
        }
    }

    /// Pops a word from the stack.
    pub fn pop(&mut self) -> (r: Result<u16, CpuError>)
        ensures
            match stack_top(old(self)@) {
                Ok(v) => r == Ok::<u16, CpuError>(v) && final(self)@ == popped(old(self)@),
                Err(e) => r == Err::<u16, CpuError>(e) && final(self)@ == old(self)@,
            },
    {
        match self.read_word(self.sp) {
            Ok(v) => {
                self.sp = ((self.sp as usize + 2) % 0x10000) as u16;
                Ok(v)
            },
            Err(e) => Err(e),
        }
    }

    fn load_reg(&mut self, dest: Result<Register, CpuError>, v: Result<u8, CpuError>, len: u16) -> (r:
        Result<(), CpuError>)
        requires
            old(self).memory.len() > 0,
        ensures
            outcome(old(self)@, final(self)@, r, load_reg_step(old(self)@, dest, v, len as int)),
    {
        match dest {
            Err(e) => Err(e),
            Ok(reg) => match v {
                Ok(x) => {
                    self.write(reg, x);
                    self.incr_pc(len);
                    Ok(())
                },
                Err(e) => Err(e),
            },
        }
    }

    fn store_byte(&mut self, addr: usize, v: Result<u8, CpuError>, len: u16) -> (r: Result<(), CpuError>)
        requires
            old(self).memory.len() > 0,
        ensures
            outcome(old(self)@, final(self)@, r, store_step(old(self)@, addr as int, v, len as int)),
    {
        match v {
            Err(e) => Err(e),
            Ok(x) => if addr < self.memory.len() {
                self.store(addr, x);
                self.incr_pc(len);
                Ok(())
            } else {
                Err(CpuError::AddressOutOfRange)
            },
        }
    }

    fn load_wide(&mut self, w: Wide, v: Result<u16, CpuError>, len: u16) -> (r: Result<(), CpuError>)
        requires
            old(self).memory.len() > 0,
        ensures
            outcome(old(self)@, final(self)@, r, load_wide_step(old(self)@, w, v, len as int)),
    {
        match v {
            Ok(x) => {
                self.write_wide(w, x);
                self.incr_pc(len);
                Ok(())
            },
            Err(e) => Err(e),
        }
    }

    fn store_wide(&mut self, addr: u16, w: Wide, len: u16) -> (r: Result<(), CpuError>)
        requires
            old(self).memory.len() > 0,
        ensures
            outcome(old(self)@, final(self)@, r, store_wide_step(old(self)@, addr as int, w, len as int)),
    {
        let hi_addr = Self::next_addr(addr as usize);
        if (addr as usize) < self.memory.len() && hi_addr < self.memory.len() {
            let v = self.read_wide(w);
            self.write_word(addr, v);
            self.incr_pc(len);
            Ok(())
        } else {
            Err(CpuError::AddressOutOfRange)
        }
    }

    fn push_instr(&mut self, w: Wide, len: u16) -> (r: Result<(), CpuError>)
        ensures
            outcome(old(self)@, final(self)@, r, push_step(old(self)@, w, len as int)),
    {
        if self.memory.len() == 0 {
            return Err(CpuError::AddressOutOfRange);
        }
        let v = self.read_wide(w);
        match self.push(v) {
            Ok(()) => {
                self.incr_pc(len);
                Ok(())
            },
            Err(e) => Err(e),
        }
    }

    fn pop_instr(&mut self, w: Wide, len: u16) -> (r: Result<(), CpuError>)
        ensures
            outcome(old(self)@, final(self)@, r, pop_step(old(self)@, w, len as int)),
    {
        if self.memory.len() == 0 {
            return Err(CpuError::AddressOutOfRange);
        }
        match self.pop() {
            Ok(v) => {
                self.write_wide(w, v);
                self.incr_pc(len);
                Ok(())
            },
            Err(e) => Err(e),
        }
    }

    /// LD r, r'
    pub fn ld_r_r1(&mut self) -> (r: Result<(), CpuError>)
        ensures
            outcome(old(self)@, final(self)@, r, load_reg_step(old(self)@, reg_field(old(self)@.fetch(0) / 8 % 8), reg_operand(old(self)@, old(self)@.fetch(0) % 8), 1)),
    {
        if self.memory.len() == 0 {
            return Err(CpuError::AddressOutOfRange);
        }
        let op = self.memory_at_pc(0);
        let v = match Self::select_src(op) {
            Ok(src) => Ok(self.read(src)),
            Err(e) => Err(e),
        };
        self.load_reg(Self::select_dest(op), v, 1)
    }

    /// LD r, n
    pub fn ld_r_n(&mut self) -> (r: Result<(), CpuError>)
        ensures
            outcome(old(self)@, final(self)@, r, load_reg_step(old(self)@, reg_field(old(self)@.fetch(0) / 8 % 8), Ok(old(self)@.fetch(1)), 2)),
    {
        if self.memory.len() == 0 {
            return Err(CpuError::AddressOutOfRange);
        }
        let op = self.memory_at_pc(0);
        let v = self.memory_at_pc(1);
        self.load_reg(Self::select_dest(op), Ok(v), 2)
    }

    /// LD r, (HL)
    pub fn ld_r_hl(&mut self) -> (r: Result<(), CpuError>)
        ensures
            outcome(old(self)@, final(self)@, r, load_reg_step(old(self)@, reg_field(old(self)@.fetch(0) / 8 % 8), mem_operand(old(self)@, old(self)@.hl() as int), 1)),
    {
        if self.memory.len() == 0 {
            return Err(CpuError::AddressOutOfRange);
        }
        let op = self.memory_at_pc(0);
        let v = self.mem_operand(self.read_hl() as usize);
        self.load_reg(Self::select_dest(op), v, 1)
    }

    /// LD r, (IX+d)
    pub fn ld_r_ixd(&mut self) -> (r: Result<(), CpuError>)
        ensures
            outcome(old(self)@, final(self)@, r, load_reg_step(old(self)@, reg_field(old(self)@.fetch(1) / 8 % 8), mem_operand(old(self)@, displaced(old(self)@.ix, old(self)@.fetch(2))), 3)),
    {
        if self.memory.len() == 0 {
            return Err(CpuError::AddressOutOfRange);
        }
        let op = self.memory_at_pc(1);
        let d = self.memory_at_pc(2);
        let v = self.mem_operand(Self::displace(self.ix, d));
        self.load_reg(Self::select_dest(op), v, 3)
    }

    /// LD r, (IY+d)
    pub fn ld_r_iyd(&mut self) -> (r: Result<(), CpuError>)
        ensures
            outcome(old(self)@, final(self)@, r, load_reg_step(old(self)@, reg_field(old(self)@.fetch(1) / 8 % 8), mem_operand(old(self)@, displaced(old(self)@.iy, old(self)@.fetch(2))), 3)),
    {
        if self.memory.len() == 0 {
            return Err(CpuError::AddressOutOfRange);
        }
        let op = self.memory_at_pc(1);
        let d = self.memory_at_pc(2);
        let v = self.mem_operand(Self::displace(self.iy, d));
        self.load_reg(Self::select_dest(op), v, 3)
    }

    /// LD (HL), r
    pub fn ld_hl_r(&mut self) -> (r: Result<(), CpuError>)
        ensures
            outcome(old(self)@, final(self)@, r, store_step(old(self)@, old(self)@.hl() as int, reg_operand(old(self)@, old(self)@.fetch(0) % 8), 1)),
    {
        if self.memory.len() == 0 {
            return Err(CpuError::AddressOutOfRange);
        }
        let op = self.memory_at_pc(0);
        let v = match Self::select_src(op) {
            Ok(src) => Ok(self.read(src)),
            Err(e) => Err(e),
        };
        self.store_byte(self.read_hl() as usize, v, 1)
    }

    /// LD (IX+d), r
    pub fn ld_ixd_r(&mut self) -> (r: Result<(), CpuError>)
        ensures
            outcome(old(self)@, final(self)@, r, store_step(old(self)@, displaced(old(self)@.ix, old(self)@.fetch(2)), reg_operand(old(self)@, old(self)@.fetch(1) % 8), 3)),
    {
        if self.memory.len() == 0 {
            return Err(CpuError::AddressOutOfRange);
        }
        let op = self.memory_at_pc(1);
        let d = self.memory_at_pc(2);
        let v = match Self::select_src(op) {
            Ok(src) => Ok(self.read(src)),
            Err(e) => Err(e),
        };
        self.store_byte(Self::displace(self.ix, d), v, 3)
    }

    /// LD (IY+d), r
    pub fn ld_iyd_r(&mut self) -> (r: Result<(), CpuError>)
        ensures
            outcome(old(self)@, final(self)@, r, store_step(old(self)@, displaced(old(self)@.iy, old(self)@.fetch(2)), reg_operand(old(self)@, old(self)@.fetch(1) % 8), 3)),
    {
        if self.memory.len() == 0 {
            return Err(CpuError::AddressOutOfRange);
        }
        let op = self.memory_at_pc(1);
        let d = self.memory_at_pc(2);
        let v = match Self::select_src(op) {
            Ok(src) => Ok(self.read(src)),
            Err(e) => Err(e),
        };
        self.store_byte(Self::displace(self.iy, d), v, 3)
    }

    /// LD (HL), n
    pub fn ld_hl_n(&mut self) -> (r: Result<(), CpuError>)
        ensures
            outcome(old(self)@, final(self)@, r, store_step(old(self)@, old(self)@.hl() as int, Ok(old(self)@.fetch(1)), 2)),
    {
        if self.memory.len() == 0 {
            return Err(CpuError::AddressOutOfRange);
        }
        let v = self.memory_at_pc(1);
        self.store_byte(self.read_hl() as usize, Ok(v), 2)
    }

    /// LD (IX+d), n
    pub fn ld_ixd_n(&mut self) -> (r: Result<(), CpuError>)
        ensures
            outcome(old(self)@, final(self)@, r, store_step(old(self)@, displaced(old(self)@.ix, old(self)@.fetch(2)), Ok(old(self)@.fetch(3)), 4)),
    {
        if self.memory.len() == 0 {
            return Err(CpuError::AddressOutOfRange);
        }
        let d = self.memory_at_pc(2);
        let v = self.memory_at_pc(3);
        self.store_byte(Self::displace(self.ix, d), Ok(v), 4)
    }

    /// LD (IY+d), n
    pub fn ld_iyd_n(&mut self) -> (r: Result<(), CpuError>)
        ensures
            outcome(old(self)@, final(self)@, r, store_step(old(self)@, displaced(old(self)@.iy, old(self)@.fetch(2)), Ok(old(self)@.fetch(3)), 4)),
    {
        if self.memory.len() == 0 {
            return Err(CpuError::AddressOutOfRange);
        }
        let d = self.memory_at_pc(2);
        let v = self.memory_at_pc(3);
        self.store_byte(Self::displace(self.iy, d), Ok(v), 4)
    }

    /// LD A, (BC)
    pub fn ld_a_bc(&mut self) -> (r: Result<(), CpuError>)
        ensures
            outcome(old(self)@, final(self)@, r, load_reg_step(old(self)@, Ok(Register::a), mem_operand(old(self)@, old(self)@.bc() as int), 1)),
    {
        if self.memory.len() == 0 {
            return Err(CpuError::AddressOutOfRange);
        }
        let v = self.mem_operand(self.read_bc() as usize);
        self.load_reg(Ok(Register::a), v, 1)
    }

    /// LD A, (DE)
    pub fn ld_a_de(&mut self) -> (r: Result<(), CpuError>)
        ensures
            outcome(old(self)@, final(self)@, r, load_reg_step(old(self)@, Ok(Register::a), mem_operand(old(self)@, old(self)@.de() as int), 1)),
    {
        if self.memory.len() == 0 {
            return Err(CpuError::AddressOutOfRange);
        }
        let v = self.mem_operand(self.read_de() as usize);
        self.load_reg(Ok(Register::a), v, 1)
    }

    /// LD A, (nn)
    pub fn ld_a_nn(&mut self) -> (r: Result<(), CpuError>)
        ensures
            outcome(old(self)@, final(self)@, r, load_reg_step(old(self)@, Ok(Register::a), mem_operand(old(self)@, old(self)@.fetch_word(1) as int), 3)),
    {
        if self.memory.len() == 0 {
            return Err(CpuError::AddressOutOfRange);
        }
        let v = self.mem_operand(self.word_at_pc(1) as usize);
        self.load_reg(Ok(Register::a), v, 3)
    }

    /// LD (BC), A
    pub fn ld_bc_a(&mut self) -> (r: Result<(), CpuError>)
        ensures
            outcome(old(self)@, final(self)@, r, store_step(old(self)@, old(self)@.bc() as int, Ok(old(self)@.a), 1)),
    {
        if self.memory.len() == 0 {
            return Err(CpuError::AddressOutOfRange);
        }
        let addr = self.read_bc() as usize;
        let v = self.a;
        self.store_byte(addr, Ok(v), 1)
    }

    /// LD (DE), A
    pub fn ld_de_a(&mut self) -> (r: Result<(), CpuError>)
        ensures
            outcome(old(self)@, final(self)@, r, store_step(old(self)@, old(self)@.de() as int, Ok(old(self)@.a), 1)),
    {
        if self.memory.len() == 0 {
            return Err(CpuError::AddressOutOfRange);
        }
        let addr = self.read_de() as usize;
        let v = self.a;
        self.store_byte(addr, Ok(v), 1)
    }

    /// LD (nn), A
    pub fn ld_nn_a(&mut self) -> (r: Result<(), CpuError>)
        ensures
            outcome(old(self)@, final(self)@, r, store_step(old(self)@, old(self)@.fetch_word(1) as int, Ok(old(self)@.a), 3)),
    {
        if self.memory.len() == 0 {
            return Err(CpuError::AddressOutOfRange);
        }
        let addr = self.word_at_pc(1) as usize;
        let v = self.a;
        self.store_byte(addr, Ok(v), 3)
    }

    /// LD A, I
    pub fn ld_a_i(&mut self) -> (r: Result<(), CpuError>)
        ensures
            outcome(old(self)@, final(self)@, r, load_a_special_step(old(self)@, old(self)@.i)),
    {
        if self.memory.len() == 0 {
            return Err(CpuError::AddressOutOfRange);
        }
        let v = self.i;
        self.a = v;
        let c = self.get_c();
        let iff2 = self.iff2;
        self.set_flags(v >= 128, v == 0, false, iff2, false, c);
        self.incr_pc(2);
        Ok(())
    }

    /// LD A, R
    pub fn ld_a_r(&mut self) -> (r: Result<(), CpuError>)
        ensures
            outcome(old(self)@, final(self)@, r, load_a_special_step(old(self)@, old(self)@.r)),
    {
        if self.memory.len() == 0 {
            return Err(CpuError::AddressOutOfRange);
        }
        let v = self.r;
        self.a = v;
        let c = self.get_c();
        let iff2 = self.iff2;
        self.set_flags(v >= 128, v == 0, false, iff2, false, c);
        self.incr_pc(2);
        Ok(())
    }

    /// LD I, A
    pub fn ld_i_a(&mut self) -> (r: Result<(), CpuError>)
        ensures
            outcome(old(self)@, final(self)@, r, if old(self)@.len() == 0 { Err(CpuError::AddressOutOfRange) } else { Ok(CpuView { i: old(self)@.a, pc: old(self)@.next_pc(2), ..old(self)@ }) }),
    {
        if self.memory.len() == 0 {
            return Err(CpuError::AddressOutOfRange);
        }
        self.i = self.a;
        self.incr_pc(2);
        Ok(())
    }

    /// LD R, A
    pub fn ld_r_a(&mut self) -> (r: Result<(), CpuError>)
        ensures
            outcome(old(self)@, final(self)@, r, if old(self)@.len() == 0 { Err(CpuError::AddressOutOfRange) } else { Ok(CpuView { r: old(self)@.a, pc: old(self)@.next_pc(2), ..old(self)@ }) }),
    {
        if self.memory.len() == 0 {
            return Err(CpuError::AddressOutOfRange);
        }
        self.r = self.a;
        self.incr_pc(2);
        Ok(())
    }

    /// LD dd, nn
    pub fn ld_dd_nn(&mut self) -> (r: Result<(), CpuError>)
        ensures
            outcome(old(self)@, final(self)@, r, load_wide_step(old(self)@, Wide::Pair(pair_of((old(self)@.fetch(0) / 16 % 4) as u8, false)), Ok(old(self)@.fetch_word(1)), 3)),
    {
        if self.memory.len() == 0 {
            return Err(CpuError::AddressOutOfRange);
        }
        let p = Self::select_reg16(self.memory_at_pc(0));
        let v = self.word_at_pc(1);
        self.load_wide(Wide::Pair(p), Ok(v), 3)
    }

    /// LD IX, nn
    pub fn ld_ix_nn(&mut self) -> (r: Result<(), CpuError>)
        ensures
            outcome(old(self)@, final(self)@, r, load_wide_step(old(self)@, Wide::Ix, Ok(old(self)@.fetch_word(2)), 4)),
    {
        if self.memory.len() == 0 {
            return Err(CpuError::AddressOutOfRange);
        }
        let v = self.word_at_pc(2);
        self.load_wide(Wide::Ix, Ok(v), 4)
    }

    /// LD IY, nn
    pub fn ld_iy_nn(&mut self) -> (r: Result<(), CpuError>)
        ensures
            outcome(old(self)@, final(self)@, r, load_wide_step(old(self)@, Wide::Iy, Ok(old(self)@.fetch_word(2)), 4)),
    {
        if self.memory.len() == 0 {
            return Err(CpuError::AddressOutOfRange);
        }
        let v = self.word_at_pc(2);
        self.load_wide(Wide::Iy, Ok(v), 4)
    }

    /// LD HL, (nn)
    pub fn ld_hl_nni(&mut self) -> (r: Result<(), CpuError>)
        ensures
            outcome(old(self)@, final(self)@, r, load_wide_step(old(self)@, Wide::Pair(Register16::hl), word_operand(old(self)@, old(self)@.fetch_word(1) as int), 3)),
    {
        if self.memory.len() == 0 {
            return Err(CpuError::AddressOutOfRange);
        }
        let v = self.read_word(self.word_at_pc(1));
        self.load_wide(Wide::Pair(Register16::hl), v, 3)
    }

    /// LD dd, (nn)
    pub fn ld_dd_nni(&mut self) -> (r: Result<(), CpuError>)
        ensures
            outcome(old(self)@, final(self)@, r, load_wide_step(old(self)@, Wide::Pair(pair_of((old(self)@.fetch(1) / 16 % 4) as u8, false)), word_operand(old(self)@, old(self)@.fetch_word(2) as int), 4)),
    {
        if self.memory.len() == 0 {
            return Err(CpuError::AddressOutOfRange);
        }
        let p = Self::select_reg16(self.memory_at_pc(1));
        let v = self.read_word(self.word_at_pc(2));
        self.load_wide(Wide::Pair(p), v, 4)
    }

    /// LD IX, (nn)
    pub fn ld_ix_nni(&mut self) -> (r: Result<(), CpuError>)
        ensures
            outcome(old(self)@, final(self)@, r, load_wide_step(old(self)@, Wide::Ix, word_operand(old(self)@, old(self)@.fetch_word(2) as int), 4)),
    {
        if self.memory.len() == 0 {
            return Err(CpuError::AddressOutOfRange);
        }
        let v = self.read_word(self.word_at_pc(2));
        self.load_wide(Wide::Ix, v, 4)
    }

    /// LD IY, (nn)
    pub fn ld_iy_nni(&mut self) -> (r: Result<(), CpuError>)
        ensures
            outcome(old(self)@, final(self)@, r, load_wide_step(old(self)@, Wide::Iy, word_operand(old(self)@, old(self)@.fetch_word(2) as int), 4)),
    {
        if self.memory.len() == 0 {
            return Err(CpuError::AddressOutOfRange);
        }
        let v = self.read_word(self.word_at_pc(2));
        self.load_wide(Wide::Iy, v, 4)
    }

    /// LD (nn), HL
    pub fn ld_nni_hl(&mut self) -> (r: Result<(), CpuError>)
        ensures
            outcome(old(self)@, final(self)@, r, store_wide_step(old(self)@, old(self)@.fetch_word(1) as int, Wide::Pair(Register16::hl), 3)),
    {
        if self.memory.len() == 0 {
            return Err(CpuError::AddressOutOfRange);
        }
        let addr = self.word_at_pc(1);
        self.store_wide(addr, Wide::Pair(Register16::hl), 3)
    }

    /// LD (nn), dd
    pub fn ld_nni_dd(&mut self) -> (r: Result<(), CpuError>)
        ensures
            outcome(old(self)@, final(self)@, r, store_wide_step(old(self)@, old(self)@.fetch_word(2) as int, Wide::Pair(pair_of((old(self)@.fetch(1) / 16 % 4) as u8, false)), 4)),
    {
        if self.memory.len() == 0 {
            return Err(CpuError::AddressOutOfRange);
        }
        let p = Self::select_reg16(self.memory_at_pc(1));
        let addr = self.word_at_pc(2);
        self.store_wide(addr, Wide::Pair(p), 4)
    }

    /// LD (nn), IX
    pub fn ld_nni_ix(&mut self) -> (r: Result<(), CpuError>)
        ensures
            outcome(old(self)@, final(self)@, r, store_wide_step(old(self)@, old(self)@.fetch_word(2) as int, Wide::Ix, 4)),
    {
        if self.memory.len() == 0 {
            return Err(CpuError::AddressOutOfRange);
        }
        let addr = self.word_at_pc(2);
        self.store_wide(addr, Wide::Ix, 4)
    }

    /// LD (nn), IY
    pub fn ld_nni_iy(&mut self) -> (r: Result<(), CpuError>)
        ensures
            outcome(old(self)@, final(self)@, r, store_wide_step(old(self)@, old(self)@.fetch_word(2) as int, Wide::Iy, 4)),
    {
        if self.memory.len() == 0 {
            return Err(CpuError::AddressOutOfRange);
        }
        let addr = self.word_at_pc(2);
        self.store_wide(addr, Wide::Iy, 4)
    }

    /// LD SP, HL
    pub fn ld_sp_hl(&mut self) -> (r: Result<(), CpuError>)
        ensures
            outcome(old(self)@, final(self)@, r, load_wide_step(old(self)@, Wide::Pair(Register16::sp), Ok(wide(old(self)@, Wide::Pair(Register16::hl))), 1)),
    {
        if self.memory.len() == 0 {
            return Err(CpuError::AddressOutOfRange);
        }
        let v = self.read_wide(Wide::Pair(Register16::hl));
        self.load_wide(Wide::Pair(Register16::sp), Ok(v), 1)
    }

    /// LD SP, IX
    pub fn ld_sp_ix(&mut self) -> (r: Result<(), CpuError>)
        ensures
            outcome(old(self)@, final(self)@, r, load_wide_step(old(self)@, Wide::Pair(Register16::sp), Ok(wide(old(self)@, Wide::Ix)), 2)),
    {
        if self.memory.len() == 0 {
            return Err(CpuError::AddressOutOfRange);
        }
        let v = self.read_wide(Wide::Ix);
        self.load_wide(Wide::Pair(Register16::sp), Ok(v), 2)
    }

    /// LD SP, IY
    pub fn ld_sp_iy(&mut self) -> (r: Result<(), CpuError>)
        ensures
            outcome(old(self)@, final(self)@, r, load_wide_step(old(self)@, Wide::Pair(Register16::sp), Ok(wide(old(self)@, Wide::Iy)), 2)),
    {
        if self.memory.len() == 0 {
            return Err(CpuError::AddressOutOfRange);
        }
        let v = self.read_wide(Wide::Iy);
        self.load_wide(Wide::Pair(Register16::sp), Ok(v), 2)
    }

    /// PUSH qq
    pub fn push_qq(&mut self) -> (r: Result<(), CpuError>)
        ensures
            outcome(old(self)@, final(self)@, r, push_step(old(self)@, Wide::Pair(pair_of((old(self)@.fetch(0) / 16 % 4) as u8, true)), 1)),
    {
        if self.memory.len() == 0 {
            return Err(CpuError::AddressOutOfRange);
        }
        let p = Self::select_push16(self.memory_at_pc(0));
        self.push_instr(Wide::Pair(p), 1)
    }

    /// POP qq
    pub fn pop_qq(&mut self) -> (r: Result<(), CpuError>)
        ensures
            outcome(old(self)@, final(self)@, r, pop_step(old(self)@, Wide::Pair(pair_of((old(self)@.fetch(0) / 16 % 4) as u8, true)), 1)),
    {
        if self.memory.len() == 0 {
            return Err(CpuError::AddressOutOfRange);
        }
        let p = Self::select_push16(self.memory_at_pc(0));
        self.pop_instr(Wide::Pair(p), 1)
    }

    /// PUSH IX
    pub fn push_ix(&mut self) -> (r: Result<(), CpuError>)
        ensures
            outcome(old(self)@, final(self)@, r, push_step(old(self)@, Wide::Ix, 2)),
    {
        if self.memory.len() == 0 {
            return Err(CpuError::AddressOutOfRange);
        }
        self.push_instr(Wide::Ix, 2)
    }

    /// POP IX
    pub fn pop_ix(&mut self) -> (r: Result<(), CpuError>)
        ensures
            outcome(old(self)@, final(self)@, r, pop_step(old(self)@, Wide::Ix, 2)),
    {
        if self.memory.len() == 0 {
            return Err(CpuError::AddressOutOfRange);
        }
        self.pop_instr(Wide::Ix, 2)
    }

    /// PUSH IY
    pub fn push_iy(&mut self) -> (r: Result<(), CpuError>)
        ensures
            outcome(old(self)@, final(self)@, r, push_step(old(self)@, Wide::Iy, 2)),
    {
        if self.memory.len() == 0 {
            return Err(CpuError::AddressOutOfRange);
        }
        self.push_instr(Wide::Iy, 2)
    }

    /// POP IY
    pub fn pop_iy(&mut self) -> (r: Result<(), CpuError>)
        ensures
            outcome(old(self)@, final(self)@, r, pop_step(old(self)@, Wide::Iy, 2)),
    {
        if self.memory.len() == 0 {
            return Err(CpuError::AddressOutOfRange);
        }
        self.pop_instr(Wide::Iy, 2)
    }
}

} // verus!

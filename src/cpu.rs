//! The register file, the status flags and the memory of the CPU.

use vstd::prelude::*;
use crate::bytes::{high_of, low_of, promote, word_of};

verus! {

// Status register bit positions
// Bit      7 6 5 4 3 2   1 0
// Position S Z X H X P/V N C
pub const S_MASK: u8 = 0x80;

pub const Z_MASK: u8 = 0x40;

pub const H_MASK: u8 = 0x10;

pub const PV_MASK: u8 = 0x4;

pub const N_MASK: u8 = 0x2;

pub const C_MASK: u8 = 0x1;

/// The 8-bit registers that an opcode field can name.
#[allow(non_camel_case_types)]
#[derive(Debug, Clone, Copy, PartialEq, Eq, Structural)]
pub enum Register {
    a,
    b,
    c,
    d,
    e,
    h,
    l,
}

/// The 16-bit register pairs, and the stack pointer.
#[allow(non_camel_case_types)]
#[derive(Debug, Clone, Copy, PartialEq, Eq, Structural)]
pub enum Register16 {
    af,
    bc,
    de,
    hl,
    sp,
}

/// Why an instruction could not be executed.
#[derive(Debug, Clone, Copy, PartialEq, Eq, Structural)]
pub enum CpuError {
    /// The opcode bytes do not encode the instruction that was asked for.
    IllegalInstruction,
    /// The instruction addresses a byte outside the memory buffer.
    AddressOutOfRange,
    /// The opcode is a valid instruction that this emulator does not carry out.
    Unimplemented,
}

/// The complete CPU state: registers, flip-flops, run state and memory.
#[derive(Debug)]
pub struct Cpu {
    pub pc: u16,
    pub sp: u16,
    pub ix: u16,
    pub iy: u16,
    pub i: u8,
    pub r: u8,
    pub a: u8,
    pub b: u8,
    pub c: u8,
    pub d: u8,
    pub e: u8,
    pub f: u8,
    pub h: u8,
    pub l: u8,
    pub a1: u8,
    pub b1: u8,
    pub c1: u8,
    pub d1: u8,
    pub e1: u8,
    pub f1: u8,
    pub h1: u8,
    pub l1: u8,
    pub iff1: bool,
    pub iff2: bool,
    /// Set by HALT: no instruction runs until an interrupt or a reset.
    pub halted: bool,
    /// The interrupt mode selected by IM 0, IM 1 or IM 2.
    pub im: u8,
    pub memory: Vec<u8>,
}

/// The mathematical state of a `Cpu`.
pub ghost struct CpuView {
    pub pc: u16,
    pub sp: u16,
    pub ix: u16,
    pub iy: u16,
    pub i: u8,
    pub r: u8,
    pub a: u8,
    pub b: u8,
    pub c: u8,
    pub d: u8,
    pub e: u8,
    pub f: u8,
    pub h: u8,
    pub l: u8,
    pub a1: u8,
    pub b1: u8,
    pub c1: u8,
    pub d1: u8,
    pub e1: u8,
    pub f1: u8,
    pub h1: u8,
    pub l1: u8,
    pub iff1: bool,
    pub iff2: bool,
    pub halted: bool,
    pub im: u8,
    pub memory: Seq<u8>,
}

impl View for Cpu {
    type V = CpuView;

    open spec fn view(&self) -> CpuView {
        CpuView {
            pc: self.pc,
            sp: self.sp,
            ix: self.ix,
            iy: self.iy,
            i: self.i,
            r: self.r,
            a: self.a,
            b: self.b,
            c: self.c,
            d: self.d,
            e: self.e,
            f: self.f,
            h: self.h,
            l: self.l,
            a1: self.a1,
            b1: self.b1,
            c1: self.c1,
            d1: self.d1,
            e1: self.e1,
            f1: self.f1,
            h1: self.h1,
            l1: self.l1,
            iff1: self.iff1,
            iff2: self.iff2,
            halted: self.halted,
            im: self.im,
            memory: self.memory@,
        }
    }
}

/// Whether the bit selected by the one-bit mask `m` is set in `x`.
pub open spec fn has_bit(x: u8, m: u8) -> bool {
    (x / m) % 2 == 1
}

/// `x` with the bit selected by the one-bit mask `m` set to `v`.
pub open spec fn with_bit(x: u8, m: u8, v: bool) -> u8 {
    if has_bit(x, m) == v {
        x
    } else if v {
        (x + m) as u8
    } else {
        (x - m) as u8
    }
}

/// 1 for true, 0 for false.
pub open spec fn b2i(v: bool) -> int {
    if v {
        1
    } else {
        0
    }
}

/// The flag register holding the six given flags, with the two unused bits taken from `keep`.
pub open spec fn pack_flags(keep: u8, s: bool, z: bool, h: bool, pv: bool, n: bool, c: bool) -> u8 {
    (b2i(keep % 64 >= 32) * 32 + b2i(keep % 16 >= 8) * 8 + b2i(s) * 128 + b2i(z) * 64 + b2i(h) * 16 + b2i(pv) * 4
        + b2i(n) * 2 + b2i(c)) as u8
}

pub open spec fn flag_s(f: u8) -> bool {
    has_bit(f, S_MASK)
}

pub open spec fn flag_z(f: u8) -> bool {
    has_bit(f, Z_MASK)
}

pub open spec fn flag_h(f: u8) -> bool {
    has_bit(f, H_MASK)
}

pub open spec fn flag_pv(f: u8) -> bool {
    has_bit(f, PV_MASK)
}

pub open spec fn flag_n(f: u8) -> bool {
    has_bit(f, N_MASK)
}

pub open spec fn flag_c(f: u8) -> bool {
    has_bit(f, C_MASK)
}

/// Reading the flags back from a packed flag register gives the flags that were packed.
pub proof fn lemma_pack_flags(keep: u8, s: bool, z: bool, h: bool, pv: bool, n: bool, c: bool)
    ensures
        flag_s(pack_flags(keep, s, z, h, pv, n, c)) == s,
        flag_z(pack_flags(keep, s, z, h, pv, n, c)) == z,
        flag_h(pack_flags(keep, s, z, h, pv, n, c)) == h,
        flag_pv(pack_flags(keep, s, z, h, pv, n, c)) == pv,
        flag_n(pack_flags(keep, s, z, h, pv, n, c)) == n,
        flag_c(pack_flags(keep, s, z, h, pv, n, c)) == c,
{
}

/// Sign extension of a displacement byte.
pub open spec fn sext(d: u8) -> int {
    if d >= 128 {
        d - 256
    } else {
        d as int
    }
}

/// The address `base + d`, with `d` read as a signed byte, on 16 bits.
pub open spec fn displaced(base: u16, d: u8) -> int {
    (base + sext(d)) % 0x10000
}

/// The register that a 3-bit opcode field names; 0b110 names none.
pub open spec fn register_of(field: u8) -> Option<Register> {
    if field == 0 {
        Some(Register::b)
    } else if field == 1 {
        Some(Register::c)
    } else if field == 2 {
        Some(Register::d)
    } else if field == 3 {
        Some(Register::e)
    } else if field == 4 {
        Some(Register::h)
    } else if field == 5 {
        Some(Register::l)
    } else if field == 7 {
        Some(Register::a)
    } else {
        None
    }
}

/// The number of bits set in a byte.
pub open spec fn bit_count(x: u8) -> int {
    x % 2 + x / 2 % 2 + x / 4 % 2 + x / 8 % 2 + x / 16 % 2 + x / 32 % 2 + x / 64 % 2 + x / 128 % 2
}

/// Even parity: the number of bits set is even.
pub open spec fn parity_even(x: u8) -> bool {
    bit_count(x) % 2 == 0
}

impl CpuView {
    pub open spec fn len(self) -> int {
        self.memory.len() as int
    }

    /// The byte `k` places after the program counter, wrapping around the memory buffer.
    pub open spec fn fetch(self, k: int) -> u8 {
        self.memory[(self.pc + k) % self.len()]
    }

    /// The little-endian word `k` places after the program counter.
    pub open spec fn fetch_word(self, k: int) -> u16 {
        word_of(self.fetch(k + 1), self.fetch(k))
    }

    /// The program counter advanced by `n`, wrapping around the memory buffer.
    pub open spec fn next_pc(self, n: int) -> u16 {
        ((self.pc + n) % self.len() % 0x10000) as u16
    }

    pub open spec fn readable(self, addr: int) -> bool {
        0 <= addr < self.len()
    }

    pub open spec fn byte(self, addr: int) -> u8 {
        self.memory[addr]
    }

    pub open spec fn af(self) -> u16 {
        word_of(self.a, self.f)
    }

    pub open spec fn bc(self) -> u16 {
        word_of(self.b, self.c)
    }

    pub open spec fn de(self) -> u16 {
        word_of(self.d, self.e)
    }

    pub open spec fn hl(self) -> u16 {
        word_of(self.h, self.l)
    }

    pub open spec fn s(self) -> bool {
        flag_s(self.f)
    }

    pub open spec fn z(self) -> bool {
        flag_z(self.f)
    }

    pub open spec fn hf(self) -> bool {
        flag_h(self.f)
    }

    pub open spec fn pv(self) -> bool {
        flag_pv(self.f)
    }

    pub open spec fn n(self) -> bool {
        flag_n(self.f)
    }

    pub open spec fn cf(self) -> bool {
        flag_c(self.f)
    }

    pub open spec fn reg(self, r: Register) -> u8 {
        match r {
            Register::a => self.a,
            Register::b => self.b,
            Register::c => self.c,
            Register::d => self.d,
            Register::e => self.e,
            Register::h => self.h,
            Register::l => self.l,
        }
    }

    pub open spec fn with_reg(self, r: Register, v: u8) -> CpuView {
        match r {
            Register::a => CpuView { a: v, ..self },
            Register::b => CpuView { b: v, ..self },
            Register::c => CpuView { c: v, ..self },
            Register::d => CpuView { d: v, ..self },
            Register::e => CpuView { e: v, ..self },
            Register::h => CpuView { h: v, ..self },
            Register::l => CpuView { l: v, ..self },
        }
    }

    pub open spec fn reg16(self, r: Register16) -> u16 {
        match r {
            Register16::af => self.af(),
            Register16::bc => self.bc(),
            Register16::de => self.de(),
            Register16::hl => self.hl(),
            Register16::sp => self.sp,
        }
    }

    pub open spec fn with_reg16(self, r: Register16, v: u16) -> CpuView {
        match r {
            Register16::af => CpuView { a: high_of(v), f: low_of(v), ..self },
            Register16::bc => CpuView { b: high_of(v), c: low_of(v), ..self },
            Register16::de => CpuView { d: high_of(v), e: low_of(v), ..self },
            Register16::hl => CpuView { h: high_of(v), l: low_of(v), ..self },
            Register16::sp => CpuView { sp: v, ..self },
        }
    }

    pub open spec fn with_f(self, f: u8) -> CpuView {
        CpuView { f, ..self }
    }

    pub open spec fn with_pc(self, pc: u16) -> CpuView {
        CpuView { pc, ..self }
    }

    pub open spec fn with_byte(self, addr: int, v: u8) -> CpuView {
        CpuView { memory: self.memory.update(addr, v), ..self }
    }
}

/// The state after an instruction: `want` is what it should do; on an error nothing changes.
pub open spec fn outcome(
    pre: CpuView,
    post: CpuView,
    r: Result<(), CpuError>,
    want: Result<CpuView, CpuError>,
) -> bool {
    match want {
        Ok(v) => r is Ok && post == v,
        Err(e) => r == Err::<(), CpuError>(e) && post == pre,
    }
}

impl Cpu {
    /// Read memory at address: pc + offset, wrapping around the memory buffer.
    pub fn memory_at_pc(&self, offset: u16) -> (r: u8)
        requires
            self.memory.len() > 0,
        ensures
            r == self@.fetch(offset as int),
    {
        let addr = (self.pc as usize + offset as usize) % self.memory.len();
        self.memory[addr]
    }

    /// The little-endian word stored at pc + offset.
    pub fn word_at_pc(&self, offset: u16) -> (r: u16)
        requires
            self.memory.len() > 0,
            offset < 0xffff,
        ensures
            r == self@.fetch_word(offset as int),
    {
        let lo = self.memory_at_pc(offset);
        let hi = self.memory_at_pc(offset + 1);
        promote(hi, lo)
    }

    /// Advances the program counter by `n`, wrapping around the memory buffer.
    pub fn incr_pc(&mut self, n: u16)
        requires
            old(self).memory.len() > 0,
        ensures
            final(self)@ == old(self)@.with_pc(old(self)@.next_pc(n as int)),
    {
        let next = (self.pc as usize + n as usize) % self.memory.len() % 0x10000;
        self.pc = next as u16;
    }

    /// The program counter advanced by `n`, wrapping around the memory buffer.
    pub(crate) fn pc_after(&self, n: u16) -> (r: u16)
        requires
            self.memory.len() > 0,
        ensures
            r == self@.next_pc(n as int),
    {
        ((self.pc as usize + n as usize) % self.memory.len() % 0x10000) as u16
    }

    /// The address `base + d`, with `d` a signed displacement, wrapping on 16 bits.
    pub fn displace(base: u16, d: u8) -> (r: usize)
        ensures
            r as int == displaced(base, d),
    {
        if d >= 128 {
            ((base as usize + 0x10000 + d as usize - 256) % 0x10000) as usize
        } else {
            (base as usize + d as usize) % 0x10000
        }
    }

    /// Writes a byte of memory at an address known to lie in the buffer.
    pub(crate) fn store(&mut self, addr: usize, value: u8)
        requires
            addr < old(self).memory.len(),
        ensures
            final(self)@ == old(self)@.with_byte(addr as int, value),
    {
        self.memory.set(addr, value);
    }
}

} // verus!

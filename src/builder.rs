//! Construction of a CPU state field by field.

use vstd::prelude::*;
use crate::bytes::{high, high_of, low, low_of};
use crate::cpu::{has_bit, pack_flags, Cpu, CpuView, C_MASK, H_MASK, N_MASK, PV_MASK, S_MASK, Z_MASK};

verus! {

/// Collects the initial registers, flags and memory of a CPU; every field starts at zero, false
/// or empty, and the setters may come in any order before `build`.
#[derive(Debug)]
pub struct CpuBuilder {
    pub pc: u16,
    pub sp: u16,
    pub ix: u16,
    pub iy: u16,
    pub i: u8,
    pub r: u8,
    pub a: u8,
    pub b: u8,
    pub c: u8,
    pub d: u8,
    pub e: u8,
    pub f: u8,
    pub h: u8,
    pub l: u8,
    pub a1: u8,
    pub b1: u8,
    pub c1: u8,
    pub d1: u8,
    pub e1: u8,
    pub f1: u8,
    pub h1: u8,
    pub l1: u8,
    pub iff1: bool,
    pub iff2: bool,
    pub flag_s: bool,
    pub flag_z: bool,
    pub flag_c: bool,
    pub flag_h: bool,
    pub flag_n: bool,
    pub flag_pv: bool,
    pub memory: Vec<u8>,
}

impl CpuBuilder {
    /// The state that `build` makes.
    pub open spec fn model(&self) -> CpuView {
        CpuView {
            pc: self.pc,
            sp: self.sp,
            ix: self.ix,
            iy: self.iy,
            i: self.i,
            r: self.r,
            a: self.a,
            b: self.b,
            c: self.c,
            d: self.d,
            e: self.e,
            f: pack_flags(self.f, self.flag_s, self.flag_z, self.flag_h, self.flag_pv, self.flag_n, self.flag_c),
            h: self.h,
            l: self.l,
            a1: self.a1,
            b1: self.b1,
            c1: self.c1,
            d1: self.d1,
            e1: self.e1,
            f1: self.f1,
            h1: self.h1,
            l1: self.l1,
            iff1: self.iff1,
            iff2: self.iff2,
            halted: false,
            im: 0,
            memory: self.memory@,
        }
    }

    /// A builder with every field at zero, false or empty.
    pub fn new() -> (r: CpuBuilder)
        ensures
            r.pc == 0,
            r.sp == 0,
            r.ix == 0,
            r.iy == 0,
            r.i == 0,
            r.r == 0,
            r.a == 0,
            r.b == 0,
            r.c == 0,
            r.d == 0,
            r.e == 0,
            r.f == 0,
            r.h == 0,
            r.l == 0,
            r.a1 == 0,
            r.b1 == 0,
            r.c1 == 0,
            r.d1 == 0,
            r.e1 == 0,
            r.f1 == 0,
            r.h1 == 0,
            r.l1 == 0,
            !r.iff1,
            !r.iff2,
            !r.flag_s,
            !r.flag_z,
            !r.flag_c,
            !r.flag_h,
            !r.flag_n,
            !r.flag_pv,
            r.memory@.len() == 0,
    {
        CpuBuilder {
            pc: 0,
            sp: 0,
            ix: 0,
            iy: 0,
            i: 0,
            r: 0,
            a: 0,
            b: 0,
            c: 0,
            d: 0,
            e: 0,
            f: 0,
            h: 0,
            l: 0,
            a1: 0,
            b1: 0,
            c1: 0,
            d1: 0,
            e1: 0,
            f1: 0,
            h1: 0,
            l1: 0,
            iff1: false,
            iff2: false,
            flag_s: false,
            flag_z: false,
            flag_c: false,
            flag_h: false,
            flag_n: false,
            flag_pv: false,
            memory: Vec::new(),
        }
    }

    /// Sets PC.
    pub fn with_pc(self, value: u16) -> (r: CpuBuilder)
        ensures
            r == (CpuBuilder { pc: value, ..self }),
    {
        CpuBuilder { pc: value, ..self }
    }

    /// Sets SP.
    pub fn with_sp(self, value: u16) -> (r: CpuBuilder)
        ensures
            r == (CpuBuilder { sp: value, ..self }),
    {
        CpuBuilder { sp: value, ..self }
    }

    /// Sets IX.
    pub fn with_ix(self, value: u16) -> (r: CpuBuilder)
        ensures
            r == (CpuBuilder { ix: value, ..self }),
    {
        CpuBuilder { ix: value, ..self }
    }

    /// Sets IY.
    pub fn with_iy(self, value: u16) -> (r: CpuBuilder)
        ensures
            r == (CpuBuilder { iy: value, ..self }),
    {
        CpuBuilder { iy: value, ..self }
    }

    /// Sets I.
    pub fn with_i(self, value: u8) -> (r: CpuBuilder)
        ensures
            r == (CpuBuilder { i: value, ..self }),
    {
        CpuBuilder { i: value, ..self }
    }

    /// Sets R.
    pub fn with_r(self, value: u8) -> (r: CpuBuilder)
        ensures
            r == (CpuBuilder { r: value, ..self }),
    {
        CpuBuilder { r: value, ..self }
    }

    /// Sets A.
    pub fn with_a(self, value: u8) -> (r: CpuBuilder)
        ensures
            r == (CpuBuilder { a: value, ..self }),
    {
        CpuBuilder { a: value, ..self }
    }

    /// Sets B.
    pub fn with_b(self, value: u8) -> (r: CpuBuilder)
        ensures
            r == (CpuBuilder { b: value, ..self }),
    {
        CpuBuilder { b: value, ..self }
    }

    /// Sets C.
    pub fn with_c(self, value: u8) -> (r: CpuBuilder)
        ensures
            r == (CpuBuilder { c: value, ..self }),
    {
        CpuBuilder { c: value, ..self }
    }

    /// Sets D.
    pub fn with_d(self, value: u8) -> (r: CpuBuilder)
        ensures
            r == (CpuBuilder { d: value, ..self }),
    {
        CpuBuilder { d: value, ..self }
    }

    /// Sets E.
    pub fn with_e(self, value: u8) -> (r: CpuBuilder)
        ensures
            r == (CpuBuilder { e: value, ..self }),
    {
        CpuBuilder { e: value, ..self }
    }

    /// Sets H.
    pub fn with_h(self, value: u8) -> (r: CpuBuilder)
        ensures
            r == (CpuBuilder { h: value, ..self }),
    {
        CpuBuilder { h: value, ..self }
    }

    /// Sets L.
    pub fn with_l(self, value: u8) -> (r: CpuBuilder)
        ensures
            r == (CpuBuilder { l: value, ..self }),
    {
        CpuBuilder { l: value, ..self }
    }

    /// Sets the interrupt flip-flop IFF1.
    pub fn with_iff1(self, value: bool) -> (r: CpuBuilder)
        ensures
            r == (CpuBuilder { iff1: value, ..self }),
    {
        CpuBuilder { iff1: value, ..self }
    }

    /// Sets the interrupt flip-flop IFF2.
    pub fn with_iff2(self, value: bool) -> (r: CpuBuilder)
        ensures
            r == (CpuBuilder { iff2: value, ..self }),
    {
        CpuBuilder { iff2: value, ..self }
    }

    /// Sets the S flag.
    pub fn with_flag_s(self, value: bool) -> (r: CpuBuilder)
        ensures
            r == (CpuBuilder { flag_s: value, ..self }),
    {
        CpuBuilder { flag_s: value, ..self }
    }

    /// Sets the Z flag.
    pub fn with_flag_z(self, value: bool) -> (r: CpuBuilder)
        ensures
            r == (CpuBuilder { flag_z: value, ..self }),
    {
        CpuBuilder { flag_z: value, ..self }
    }

    /// Sets the C flag.
    pub fn with_flag_c(self, value: bool) -> (r: CpuBuilder)
        ensures
            r == (CpuBuilder { flag_c: value, ..self }),
    {
        CpuBuilder { flag_c: value, ..self }
    }

    /// Sets the H flag.
    pub fn with_flag_h(self, value: bool) -> (r: CpuBuilder)
        ensures
            r == (CpuBuilder { flag_h: value, ..self }),
    {
        CpuBuilder { flag_h: value, ..self }
    }

    /// Sets the N flag.
    pub fn with_flag_n(self, value: bool) -> (r: CpuBuilder)
        ensures
            r == (CpuBuilder { flag_n: value, ..self }),
    {
        CpuBuilder { flag_n: value, ..self }
    }

    /// Sets the PV flag.
    pub fn with_flag_pv(self, value: bool) -> (r: CpuBuilder)
        ensures
            r == (CpuBuilder { flag_pv: value, ..self }),
    {
        CpuBuilder { flag_pv: value, ..self }
    }

    /// Sets F, and with it the six flags.
    pub fn with_f(self, value: u8) -> (r: CpuBuilder)
        ensures
            r == (CpuBuilder {
                f: value,
                flag_s: has_bit(value, S_MASK),
                flag_z: has_bit(value, Z_MASK),
                flag_h: has_bit(value, H_MASK),
                flag_pv: has_bit(value, PV_MASK),
                flag_n: has_bit(value, N_MASK),
                flag_c: has_bit(value, C_MASK),
                ..self
            }),
    {
        let flag_s = value / S_MASK % 2 == 1;
        let flag_z = value / Z_MASK % 2 == 1;
        let flag_h = value / H_MASK % 2 == 1;
        let flag_pv = value / PV_MASK % 2 == 1;
        let flag_n = value / N_MASK % 2 == 1;
        let flag_c = value / C_MASK % 2 == 1;
        CpuBuilder { f: value, flag_s, flag_z, flag_h, flag_pv, flag_n, flag_c, ..self }
    }

    /// Sets BC: B takes the high byte, C the low one.
    pub fn with_bc(self, value: u16) -> (r: CpuBuilder)
        ensures
            r == (CpuBuilder { b: high_of(value), c: low_of(value), ..self }),
    {
        CpuBuilder { b: high(value), c: low(value), ..self }
    }

    /// Sets DE: D takes the high byte, E the low one.
    pub fn with_de(self, value: u16) -> (r: CpuBuilder)
        ensures
            r == (CpuBuilder { d: high_of(value), e: low_of(value), ..self }),
    {
        CpuBuilder { d: high(value), e: low(value), ..self }
    }

    /// Sets HL: H takes the high byte, L the low one.
    pub fn with_hl(self, value: u16) -> (r: CpuBuilder)
        ensures
            r == (CpuBuilder { h: high_of(value), l: low_of(value), ..self }),
    {
        CpuBuilder { h: high(value), l: low(value), ..self }
    }

    /// Gives the CPU a memory of `size` zero bytes.
    pub fn with_memory_size(self, size: u16) -> (r: CpuBuilder)
        ensures
            r == (CpuBuilder { memory: r.memory, ..self }),
            r.memory@ == Seq::new(size as nat, |i: int| 0u8),
    {
        let mut memory: Vec<u8> = Vec::with_capacity(size as usize);
        let mut k: u16 = 0;
        while k < size
            invariant
                k <= size,
                memory@ == Seq::new(k as nat, |i: int| 0u8),
            decreases size - k,
        {
            memory.push(0);
            k = k + 1;
            assert(memory@ =~= Seq::new(k as nat, |i: int| 0u8));
        }
        CpuBuilder { memory, ..self }
    }

    /// Gives the CPU the memory image `memory`.
    pub fn with_memory(self, memory: Vec<u8>) -> (r: CpuBuilder)
        ensures
            r == (CpuBuilder { memory, ..self }),
    {
        CpuBuilder { memory, ..self }
    }

    /// The CPU in the state collected so far: running, in interrupt mode 0.
    pub fn build(self) -> (r: Cpu)
        ensures
            r@ == self.model(),
    {
        let f = Cpu::pack(self.f, self.flag_s, self.flag_z, self.flag_h, self.flag_pv, self.flag_n, self.flag_c);
        Cpu {
            pc: self.pc,
            sp: self.sp,
            ix: self.ix,
            iy: self.iy,
            i: self.i,
            r: self.r,
            a: self.a,
            b: self.b,
            c: self.c,
            d: self.d,
            e: self.e,
            f,
            h: self.h,
            l: self.l,
            a1: self.a1,
            b1: self.b1,
            c1: self.c1,
            d1: self.d1,
            e1: self.e1,
            f1: self.f1,
            h1: self.h1,
            l1: self.l1,
            iff1: self.iff1,
            iff2: self.iff2,
            halted: false,
            im: 0,
            memory: self.memory,
        }
    }
}

} // verus!

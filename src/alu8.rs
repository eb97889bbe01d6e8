//! The 8-bit arithmetic and logic group: ADD, ADC, SUB, SBC, AND, OR, XOR, CP, INC, DEC.

use vstd::prelude::*;
use crate::cpu::{b2i, flag_c, pack_flags, parity_even, Cpu, CpuError, CpuView, outcome};
use crate::operand::{loc_value, source_len, source_value, target_loc, with_loc, Source, Target};

verus! {

/// An operation of the accumulator with an 8-bit operand.
#[derive(Debug, Clone, Copy, PartialEq, Eq, Structural)]
pub enum AluOp {
    Add,
    Adc,
    Sub,
    Sbc,
    And,
    Xor,
    Or,
    Cp,
}

/// `a + v + cin` on 8 bits.
pub open spec fn add_result(a: u8, v: u8, cin: int) -> u8 {
    ((a + v + cin) % 256) as u8
}

/// `a - v - bin` on 8 bits.
pub open spec fn sub_result(a: u8, v: u8, bin: int) -> u8 {
    ((a - v - bin) % 256) as u8
}

/// Carry out of bit 3 in `a + v + cin`.
pub open spec fn half_carry_add(a: u8, v: u8, cin: int) -> bool {
    a % 16 + v % 16 + cin >= 16
}

/// Borrow from bit 4 in `a - v - bin`.
pub open spec fn half_borrow_sub(a: u8, v: u8, bin: int) -> bool {
    a % 16 < v % 16 + bin
}

/// Two's complement overflow of `a + v + cin`: equal signs in, another sign out.
pub open spec fn overflow_add(a: u8, v: u8, cin: int) -> bool {
    (a >= 128) == (v >= 128) && (add_result(a, v, cin) >= 128) != (a >= 128)
}

/// Two's complement overflow of `a - v - bin`: different signs in, the sign of `v` out.
pub open spec fn overflow_sub(a: u8, v: u8, bin: int) -> bool {
    (a >= 128) != (v >= 128) && (sub_result(a, v, bin) >= 128) != (a >= 128)
}

/// The flags after `a + v + cin`.
pub open spec fn add_flags(f: u8, a: u8, v: u8, cin: int) -> u8 {
    let r = add_result(a, v, cin);
    pack_flags(f, r >= 128, r == 0, half_carry_add(a, v, cin), overflow_add(a, v, cin), false, a + v + cin >= 256)
}

/// The flags after `a - v - bin`.
pub open spec fn sub_flags(f: u8, a: u8, v: u8, bin: int) -> u8 {
    let r = sub_result(a, v, bin);
    pack_flags(f, r >= 128, r == 0, half_borrow_sub(a, v, bin), overflow_sub(a, v, bin), true, a < v + bin)
}

/// The flags after a logical operation with result `r`: parity in PV, carry cleared.
pub open spec fn logic_flags(f: u8, r: u8, h: bool) -> u8 {
    pack_flags(f, r >= 128, r == 0, h, parity_even(r), false, false)
}

/// The accumulator after an operation.
pub open spec fn alu_a(op: AluOp, a: u8, v: u8, f: u8) -> u8 {
    match op {
        AluOp::Add => add_result(a, v, 0),
        AluOp::Adc => add_result(a, v, b2i(flag_c(f))),
        AluOp::Sub => sub_result(a, v, 0),
        AluOp::Sbc => sub_result(a, v, b2i(flag_c(f))),
        AluOp::And => a & v,
        AluOp::Xor => a ^ v,
        AluOp::Or => a | v,
        AluOp::Cp => a,
    }
}

/// The flag register after an operation.
pub open spec fn alu_f(op: AluOp, a: u8, v: u8, f: u8) -> u8 {
    match op {
        AluOp::Add => add_flags(f, a, v, 0),
        AluOp::Adc => add_flags(f, a, v, b2i(flag_c(f))),
        AluOp::Sub => sub_flags(f, a, v, 0),
        AluOp::Sbc => sub_flags(f, a, v, b2i(flag_c(f))),
        AluOp::And => logic_flags(f, a & v, true),
        AluOp::Xor => logic_flags(f, a ^ v, false),
        AluOp::Or => logic_flags(f, a | v, false),
        AluOp::Cp => sub_flags(f, a, v, 0),
    }
}

/// What an accumulator instruction does: the operand is combined into A and F, PC moves on.
pub open spec fn alu_step(s: CpuView, op: AluOp, src: Source) -> Result<CpuView, CpuError> {
    if s.len() == 0 {
        Err(CpuError::AddressOutOfRange)
    } else {
        match source_value(s, src) {
            Ok(v) => Ok(
                CpuView {
                    a: alu_a(op, s.a, v, s.f),
                    f: alu_f(op, s.a, v, s.f),
                    pc: s.next_pc(source_len(src)),
                    ..s
                },
            ),
            Err(e) => Err(e),
        }
    }
}

/// The flags after INC of `v`: PV is set iff `v` was 0x7F; C is kept.
pub open spec fn inc_flags(f: u8, v: u8) -> u8 {
    let r = add_result(v, 1, 0);
    pack_flags(f, r >= 128, r == 0, half_carry_add(v, 1, 0), v == 0x7f, false, flag_c(f))
}

/// The flags after DEC of `v`: PV is set iff `v` was 0x80; C is kept.
pub open spec fn dec_flags(f: u8, v: u8) -> u8 {
    let r = sub_result(v, 1, 0);
    pack_flags(f, r >= 128, r == 0, half_borrow_sub(v, 1, 0), v == 0x80, true, flag_c(f))
}

/// What INC (`up`) or DEC does to the byte at a target.
pub open spec fn incdec_step(s: CpuView, up: bool, t: Target, len: int) -> Result<CpuView, CpuError> {
    if s.len() == 0 {
        Err(CpuError::AddressOutOfRange)
    } else {
        match target_loc(s, t) {
            Ok(loc) => {
                let v = loc_value(s, loc);
                let r = if up { add_result(v, 1, 0) } else { sub_result(v, 1, 0) };
                let f = if up { inc_flags(s.f, v) } else { dec_flags(s.f, v) };
                Ok(with_loc(s, loc, r).with_f(f).with_pc(s.next_pc(len)))
            },
            Err(e) => Err(e),
        }
    }
}

/// The lookup table for the half carry of an addition, indexed by bit 3 of the two operands and
/// of the result (operand a in bit 0, operand b in bit 1, result in bit 2).
pub open spec fn half_carry_add_table(idx: u8) -> bool {
    idx == 1 || idx == 2 || idx == 3 || idx == 7
}

/// The lookup table for the half borrow of a subtraction, indexed as for the addition.
pub open spec fn half_carry_sub_table(idx: u8) -> bool {
    idx == 2 || idx == 4 || idx == 6 || idx == 7
}

/// The table index of bit 3 of `a`, `v` and `r`.
pub open spec fn half_carry_index(a: u8, v: u8, r: u8) -> u8 {
    (a / 8 % 2 + v / 8 % 2 * 2 + r / 8 % 2 * 4) as u8
}

/// The tables on the low nibbles: `a3`, `v3` are bit 3 of the operands, `x` what the three low
/// bits and the carry or borrow in add up to.
proof fn lemma_nibble_tables(a3: int, v3: int, x: int)
    requires
        0 <= a3 <= 1,
        0 <= v3 <= 1,
        -8 <= x < 16,
    ensures
        0 <= x ==> half_carry_add_table((a3 + 2 * v3 + 4 * ((8 * a3 + 8 * v3 + x) % 16 / 8)) as u8)
            == (8 * a3 + 8 * v3 + x >= 16),
        x < 8 ==> half_carry_sub_table((a3 + 2 * v3 + 4 * ((8 * a3 - 8 * v3 + x) % 16 / 8)) as u8)
            == (8 * a3 - 8 * v3 + x < 0),
{
}

/// Bit 3 of a byte read from `t`, where `t` equals the byte modulo 16.
proof fn lemma_bit3(r: int, t: int, k: int)
    requires
        0 <= r < 256,
        r == t % 256,
        t == 16 * k + (t - 16 * k),
    ensures
        r / 8 % 2 == (t - 16 * k) % 16 / 8,
{
    vstd::arithmetic::div_mod::lemma_mod_mod(t, 16, 16);
    vstd::arithmetic::div_mod::lemma_mod_multiples_vanish(k, t - 16 * k, 16);
    assert(r % 16 == t % 16);
}

/// The half-carry tables agree with carries and borrows between the low nibbles.
pub proof fn lemma_half_carry_tables(a: u8, v: u8, c: int)
    requires
        0 <= c <= 1,
    ensures
        half_carry_add_table(half_carry_index(a, v, add_result(a, v, c))) == half_carry_add(a, v, c),
        half_carry_sub_table(half_carry_index(a, v, sub_result(a, v, c))) == half_borrow_sub(a, v, c),
{
    let a3 = a / 8 % 2;
    let v3 = v / 8 % 2;
    assert(a % 16 == 8 * a3 + a % 8);
    assert(v % 16 == 8 * v3 + v % 8);
    assert(a == 16 * (a / 16) + a % 16);
    assert(v == 16 * (v / 16) + v % 16);
    let x = a % 8 + v % 8 + c;
    lemma_bit3(add_result(a, v, c) as int, a + v + c, a / 16 + v / 16);
    lemma_nibble_tables(a3 as int, v3 as int, x);
    let y = a % 8 - v % 8 - c;
    lemma_bit3(sub_result(a, v, c) as int, a - v - c, a / 16 - v / 16);
    lemma_nibble_tables(a3 as int, v3 as int, y);
}

impl Cpu {
    /// The half carry (or, for a subtraction, the half borrow) of an operation, read from the
    /// lookup table by bit 3 of the operands and of the result.
    fn half_carry(a: u8, v: u8, c: u8, r: u8, sub: bool) -> (h: bool)
        requires
            c <= 1,
            r == (if sub { sub_result(a, v, c as int) } else { add_result(a, v, c as int) }),
        ensures
            h == (if sub { half_borrow_sub(a, v, c as int) } else { half_carry_add(a, v, c as int) }),
    {
        proof {
            lemma_half_carry_tables(a, v, c as int);
        }
        let idx: u8 = a / 8 % 2 + v / 8 % 2 * 2 + r / 8 % 2 * 4;
        if sub {
            match idx {
                2 | 4 | 6 | 7 => true,
                _ => false,
            }
        } else {
            match idx {
                1 | 2 | 3 | 7 => true,
                _ => false,
            }
        }
    }

    /// `a + v + c` and the flags it sets.
    fn add8(a: u8, v: u8, c: u8, f: u8) -> (r: (u8, u8))
        requires
            c <= 1,
        ensures
            r.0 == add_result(a, v, c as int),
            r.1 == add_flags(f, a, v, c as int),
    {
        let sum: u16 = a as u16 + v as u16 + c as u16;
        let res = (sum % 256) as u8;
        let h = Self::half_carry(a, v, c, res, false);
        let pv = (a >= 128) == (v >= 128) && (res >= 128) != (a >= 128);
        (res, Self::pack(f, res >= 128, res == 0, h, pv, false, sum >= 256))
    }

    /// `a - v - c` and the flags it sets.
    fn sub8(a: u8, v: u8, c: u8, f: u8) -> (r: (u8, u8))
        requires
            c <= 1,
        ensures
            r.0 == sub_result(a, v, c as int),
            r.1 == sub_flags(f, a, v, c as int),
    {
        let diff: u16 = (a as u16 + 256) - v as u16 - c as u16;
        let res = (diff % 256) as u8;
        let h = Self::half_carry(a, v, c, res, true);
        let pv = (a >= 128) != (v >= 128) && (res >= 128) != (a >= 128);
        (res, Self::pack(f, res >= 128, res == 0, h, pv, true, (a as u16) < v as u16 + c as u16))
    }

    /// Combines an operand into the accumulator and sets the flags.
    pub fn alu(&mut self, op: AluOp, v: u8)
        ensures
            final(self)@ == (CpuView {
                a: alu_a(op, old(self).a, v, old(self).f),
                f: alu_f(op, old(self).a, v, old(self).f),
                ..old(self)@
            }),
    {
        let a = self.a;
        let f = self.f;
        let c = self.get_c_value();
        match op {
            AluOp::Add => {
                let (r, fl) = Self::add8(a, v, 0, f);
                self.a = r;
                self.f = fl;
            },
            AluOp::Adc => {
                let (r, fl) = Self::add8(a, v, c, f);
                self.a = r;
                self.f = fl;
            },
            AluOp::Sub => {
                let (r, fl) = Self::sub8(a, v, 0, f);
                self.a = r;
                self.f = fl;
            },
            AluOp::Sbc => {
                let (r, fl) = Self::sub8(a, v, c, f);
                self.a = r;
                self.f = fl;
            },
            AluOp::And => {
                let r = a & v;
                self.a = r;
                self.f = Self::pack(f, r >= 128, r == 0, true, Self::parity(r), false, false);
            },
            AluOp::Xor => {
                let r = a ^ v;
                self.a = r;
                self.f = Self::pack(f, r >= 128, r == 0, false, Self::parity(r), false, false);
            },
            AluOp::Or => {
                let r = a | v;
                self.a = r;
                self.f = Self::pack(f, r >= 128, r == 0, false, Self::parity(r), false, false);
            },
            AluOp::Cp => {
                let (_, fl) = Self::sub8(a, v, 0, f);
                self.f = fl;
            },
        }
    }

    /// Runs an accumulator instruction whose operand comes from `src`.
    pub fn alu_instr(&mut self, op: AluOp, src: Source) -> (r: Result<(), CpuError>)
        ensures
            outcome(old(self)@, final(self)@, r, alu_step(old(self)@, op, src)),
    {
        if self.memory.len() == 0 {
            return Err(CpuError::AddressOutOfRange);
        }
        match self.read_source(src) {
            Ok(v) => {
                self.alu(op, v);
                self.incr_pc(Self::source_len(src));
                Ok(())
            },
            Err(e) => Err(e),
        }
    }

    /// Runs INC (`up`) or DEC on the byte at a target.
    pub fn incdec_instr(&mut self, up: bool, t: Target, len: u16) -> (r: Result<(), CpuError>)
        ensures
            outcome(old(self)@, final(self)@, r, incdec_step(old(self)@, up, t, len as int)),
    {
        if self.memory.len() == 0 {
            return Err(CpuError::AddressOutOfRange);
        }
        match self.locate(t) {
            Ok(loc) => {
                let v = self.read_loc(loc);
                let f = self.f;
                let c = f % 2 == 1;
                let (r, fl) = if up {
                    let r = if v == 255 { 0 } else { v + 1 };
                    let h = Self::half_carry(v, 1, 0, r, false);
                    (r, Self::pack(f, r >= 128, r == 0, h, v == 0x7f, false, c))
                } else {
                    let r = if v == 0 { 255 } else { v - 1 };
                    let h = Self::half_carry(v, 1, 0, r, true);
                    (r, Self::pack(f, r >= 128, r == 0, h, v == 0x80, true, c))
                };
                self.write_loc(loc, r);
                self.f = fl;
                self.incr_pc(len);
                Ok(())
            },
            Err(e) => Err(e),
        }
    }
}

impl Cpu {
    /// ADD A,r
    pub fn add_a_r(&mut self) -> (r: Result<(), CpuError>)
        ensures
            outcome(old(self)@, final(self)@, r, alu_step(old(self)@, AluOp::Add, Source::Reg)),
    {
        self.alu_instr(AluOp::Add, Source::Reg)
    }

    /// ADD A,n
    pub fn add_a_n(&mut self) -> (r: Result<(), CpuError>)
        ensures
            outcome(old(self)@, final(self)@, r, alu_step(old(self)@, AluOp::Add, Source::Imm)),
    {
        self.alu_instr(AluOp::Add, Source::Imm)
    }

    /// ADD A,(HL)
    pub fn add_a_hli(&mut self) -> (r: Result<(), CpuError>)
        ensures
            outcome(old(self)@, final(self)@, r, alu_step(old(self)@, AluOp::Add, Source::Hl)),
    {
        self.alu_instr(AluOp::Add, Source::Hl)
    }

    /// ADD A,(IX+d)
    pub fn add_a_ixdi(&mut self) -> (r: Result<(), CpuError>)
        ensures
            outcome(old(self)@, final(self)@, r, alu_step(old(self)@, AluOp::Add, Source::Ix)),
    {
        self.alu_instr(AluOp::Add, Source::Ix)
    }

    /// ADD A,(IY+d)
    pub fn add_a_iydi(&mut self) -> (r: Result<(), CpuError>)
        ensures
            outcome(old(self)@, final(self)@, r, alu_step(old(self)@, AluOp::Add, Source::Iy)),
    {
        self.alu_instr(AluOp::Add, Source::Iy)
    }

    /// ADC A,r
    pub fn adc_a_r(&mut self) -> (r: Result<(), CpuError>)
        ensures
            outcome(old(self)@, final(self)@, r, alu_step(old(self)@, AluOp::Adc, Source::Reg)),
    {
        self.alu_instr(AluOp::Adc, Source::Reg)
    }

    /// ADC A,n
    pub fn adc_a_n(&mut self) -> (r: Result<(), CpuError>)
        ensures
            outcome(old(self)@, final(self)@, r, alu_step(old(self)@, AluOp::Adc, Source::Imm)),
    {
        self.alu_instr(AluOp::Adc, Source::Imm)
    }

    /// ADC A,(HL)
    pub fn adc_a_hli(&mut self) -> (r: Result<(), CpuError>)
        ensures
            outcome(old(self)@, final(self)@, r, alu_step(old(self)@, AluOp::Adc, Source::Hl)),
    {
        self.alu_instr(AluOp::Adc, Source::Hl)
    }

    /// ADC A,(IX+d)
    pub fn adc_a_ixdi(&mut self) -> (r: Result<(), CpuError>)
        ensures
            outcome(old(self)@, final(self)@, r, alu_step(old(self)@, AluOp::Adc, Source::Ix)),
    {
        self.alu_instr(AluOp::Adc, Source::Ix)
    }

    /// ADC A,(IY+d)
    pub fn adc_a_iydi(&mut self) -> (r: Result<(), CpuError>)
        ensures
            outcome(old(self)@, final(self)@, r, alu_step(old(self)@, AluOp::Adc, Source::Iy)),
    {
        self.alu_instr(AluOp::Adc, Source::Iy)
    }

    /// SUB r
    pub fn sub_r(&mut self) -> (r: Result<(), CpuError>)
        ensures
            outcome(old(self)@, final(self)@, r, alu_step(old(self)@, AluOp::Sub, Source::Reg)),
    {
        self.alu_instr(AluOp::Sub, Source::Reg)
    }

    /// SUB n
    pub fn sub_n(&mut self) -> (r: Result<(), CpuError>)
        ensures
            outcome(old(self)@, final(self)@, r, alu_step(old(self)@, AluOp::Sub, Source::Imm)),
    {
        self.alu_instr(AluOp::Sub, Source::Imm)
    }

    /// SUB (HL)
    pub fn sub_hli(&mut self) -> (r: Result<(), CpuError>)
        ensures
            outcome(old(self)@, final(self)@, r, alu_step(old(self)@, AluOp::Sub, Source::Hl)),
    {
        self.alu_instr(AluOp::Sub, Source::Hl)
    }

    /// SUB (IX+d)
    pub fn sub_ixdi(&mut self) -> (r: Result<(), CpuError>)
        ensures
            outcome(old(self)@, final(self)@, r, alu_step(old(self)@, AluOp::Sub, Source::Ix)),
    {
        self.alu_instr(AluOp::Sub, Source::Ix)
    }

    /// SUB (IY+d)
    pub fn sub_iydi(&mut self) -> (r: Result<(), CpuError>)
        ensures
            outcome(old(self)@, final(self)@, r, alu_step(old(self)@, AluOp::Sub, Source::Iy)),
    {
        self.alu_instr(AluOp::Sub, Source::Iy)
    }

    /// SBC A,r
    pub fn sbc_a_r(&mut self) -> (r: Result<(), CpuError>)
        ensures
            outcome(old(self)@, final(self)@, r, alu_step(old(self)@, AluOp::Sbc, Source::Reg)),
    {
        self.alu_instr(AluOp::Sbc, Source::Reg)
    }

    /// SBC A,n
    pub fn sbc_a_n(&mut self) -> (r: Result<(), CpuError>)
        ensures
            outcome(old(self)@, final(self)@, r, alu_step(old(self)@, AluOp::Sbc, Source::Imm)),
    {
        self.alu_instr(AluOp::Sbc, Source::Imm)
    }

    /// SBC A,(HL)
    pub fn sbc_a_hli(&mut self) -> (r: Result<(), CpuError>)
        ensures
            outcome(old(self)@, final(self)@, r, alu_step(old(self)@, AluOp::Sbc, Source::Hl)),
    {
        self.alu_instr(AluOp::Sbc, Source::Hl)
    }

    /// SBC A,(IX+d)
    pub fn sbc_a_ixdi(&mut self) -> (r: Result<(), CpuError>)
        ensures
            outcome(old(self)@, final(self)@, r, alu_step(old(self)@, AluOp::Sbc, Source::Ix)),
    {
        self.alu_instr(AluOp::Sbc, Source::Ix)
    }

    /// SBC A,(IY+d)
    pub fn sbc_a_iydi(&mut self) -> (r: Result<(), CpuError>)
        ensures
            outcome(old(self)@, final(self)@, r, alu_step(old(self)@, AluOp::Sbc, Source::Iy)),
    {
        self.alu_instr(AluOp::Sbc, Source::Iy)
    }

    /// AND r
    pub fn and_r(&mut self) -> (r: Result<(), CpuError>)
        ensures
            outcome(old(self)@, final(self)@, r, alu_step(old(self)@, AluOp::And, Source::Reg)),
    {
        self.alu_instr(AluOp::And, Source::Reg)
    }

    /// AND n
    pub fn and_n(&mut self) -> (r: Result<(), CpuError>)
        ensures
            outcome(old(self)@, final(self)@, r, alu_step(old(self)@, AluOp::And, Source::Imm)),
    {
        self.alu_instr(AluOp::And, Source::Imm)
    }

    /// AND (HL)
    pub fn and_hli(&mut self) -> (r: Result<(), CpuError>)
        ensures
            outcome(old(self)@, final(self)@, r, alu_step(old(self)@, AluOp::And, Source::Hl)),
    {
        self.alu_instr(AluOp::And, Source::Hl)
    }

    /// AND (IX+d)
    pub fn and_ixdi(&mut self) -> (r: Result<(), CpuError>)
        ensures
            outcome(old(self)@, final(self)@, r, alu_step(old(self)@, AluOp::And, Source::Ix)),
    {
        self.alu_instr(AluOp::And, Source::Ix)
    }

    /// AND (IY+d)
    pub fn and_iydi(&mut self) -> (r: Result<(), CpuError>)
        ensures
            outcome(old(self)@, final(self)@, r, alu_step(old(self)@, AluOp::And, Source::Iy)),
    {
        self.alu_instr(AluOp::And, Source::Iy)
    }

    /// OR r
    pub fn or_r(&mut self) -> (r: Result<(), CpuError>)
        ensures
            outcome(old(self)@, final(self)@, r, alu_step(old(self)@, AluOp::Or, Source::Reg)),
    {
        self.alu_instr(AluOp::Or, Source::Reg)
    }

    /// OR n
    pub fn or_n(&mut self) -> (r: Result<(), CpuError>)
        ensures
            outcome(old(self)@, final(self)@, r, alu_step(old(self)@, AluOp::Or, Source::Imm)),
    {
        self.alu_instr(AluOp::Or, Source::Imm)
    }

    /// OR (HL)
    pub fn or_hli(&mut self) -> (r: Result<(), CpuError>)
        ensures
            outcome(old(self)@, final(self)@, r, alu_step(old(self)@, AluOp::Or, Source::Hl)),
    {
        self.alu_instr(AluOp::Or, Source::Hl)
    }

    /// OR (IX+d)
    pub fn or_ixdi(&mut self) -> (r: Result<(), CpuError>)
        ensures
            outcome(old(self)@, final(self)@, r, alu_step(old(self)@, AluOp::Or, Source::Ix)),
    {
        self.alu_instr(AluOp::Or, Source::Ix)
    }

    /// OR (IY+d)
    pub fn or_iydi(&mut self) -> (r: Result<(), CpuError>)
        ensures
            outcome(old(self)@, final(self)@, r, alu_step(old(self)@, AluOp::Or, Source::Iy)),
    {
        self.alu_instr(AluOp::Or, Source::Iy)
    }

    /// XOR r
    pub fn xor_r(&mut self) -> (r: Result<(), CpuError>)
        ensures
            outcome(old(self)@, final(self)@, r, alu_step(old(self)@, AluOp::Xor, Source::Reg)),
    {
        self.alu_instr(AluOp::Xor, Source::Reg)
    }

    /// XOR n
    pub fn xor_n(&mut self) -> (r: Result<(), CpuError>)
        ensures
            outcome(old(self)@, final(self)@, r, alu_step(old(self)@, AluOp::Xor, Source::Imm)),
    {
        self.alu_instr(AluOp::Xor, Source::Imm)
    }

    /// XOR (HL)
    pub fn xor_hli(&mut self) -> (r: Result<(), CpuError>)
        ensures
            outcome(old(self)@, final(self)@, r, alu_step(old(self)@, AluOp::Xor, Source::Hl)),
    {
        self.alu_instr(AluOp::Xor, Source::Hl)
    }

    /// XOR (IX+d)
    pub fn xor_ixdi(&mut self) -> (r: Result<(), CpuError>)
        ensures
            outcome(old(self)@, final(self)@, r, alu_step(old(self)@, AluOp::Xor, Source::Ix)),
    {
        self.alu_instr(AluOp::Xor, Source::Ix)
    }

    /// XOR (IY+d)
    pub fn xor_iydi(&mut self) -> (r: Result<(), CpuError>)
        ensures
            outcome(old(self)@, final(self)@, r, alu_step(old(self)@, AluOp::Xor, Source::Iy)),
    {
        self.alu_instr(AluOp::Xor, Source::Iy)
    }

    /// CP r
    pub fn cp_r(&mut self) -> (r: Result<(), CpuError>)
        ensures
            outcome(old(self)@, final(self)@, r, alu_step(old(self)@, AluOp::Cp, Source::Reg)),
    {
        self.alu_instr(AluOp::Cp, Source::Reg)
    }

    /// CP n
    pub fn cp_n(&mut self) -> (r: Result<(), CpuError>)
        ensures
            outcome(old(self)@, final(self)@, r, alu_step(old(self)@, AluOp::Cp, Source::Imm)),
    {
        self.alu_instr(AluOp::Cp, Source::Imm)
    }

    /// CP (HL)
    pub fn cp_hli(&mut self) -> (r: Result<(), CpuError>)
        ensures
            outcome(old(self)@, final(self)@, r, alu_step(old(self)@, AluOp::Cp, Source::Hl)),
    {
        self.alu_instr(AluOp::Cp, Source::Hl)
    }

    /// CP (IX+d)
    pub fn cp_ixdi(&mut self) -> (r: Result<(), CpuError>)
        ensures
            outcome(old(self)@, final(self)@, r, alu_step(old(self)@, AluOp::Cp, Source::Ix)),
    {
        self.alu_instr(AluOp::Cp, Source::Ix)
    }

    /// CP (IY+d)
    pub fn cp_iydi(&mut self) -> (r: Result<(), CpuError>)
        ensures
            outcome(old(self)@, final(self)@, r, alu_step(old(self)@, AluOp::Cp, Source::Iy)),
    {
        self.alu_instr(AluOp::Cp, Source::Iy)
    }

    /// ADD A,(IX+d)
    pub fn add_a_ixd(&mut self) -> (r: Result<(), CpuError>)
        ensures
            outcome(old(self)@, final(self)@, r, alu_step(old(self)@, AluOp::Add, Source::Ix)),
    {
        self.alu_instr(AluOp::Add, Source::Ix)
    }

    /// ADD A,(IY+d)
    pub fn add_a_iyd(&mut self) -> (r: Result<(), CpuError>)
        ensures
            outcome(old(self)@, final(self)@, r, alu_step(old(self)@, AluOp::Add, Source::Iy)),
    {
        self.alu_instr(AluOp::Add, Source::Iy)
    }

    /// INC r
    pub fn inc_r(&mut self) -> (r: Result<(), CpuError>)
        ensures
            outcome(old(self)@, final(self)@, r, incdec_step(old(self)@, true, Target::RegHigh, 1)),
    {
        self.incdec_instr(true, Target::RegHigh, 1)
    }

    /// INC (HL)
    pub fn inc_hli(&mut self) -> (r: Result<(), CpuError>)
        ensures
            outcome(old(self)@, final(self)@, r, incdec_step(old(self)@, true, Target::Hl, 1)),
    {
        self.incdec_instr(true, Target::Hl, 1)
    }

    /// INC (IX+d)
    pub fn inc_ixdi(&mut self) -> (r: Result<(), CpuError>)
        ensures
            outcome(old(self)@, final(self)@, r, incdec_step(old(self)@, true, Target::Ix, 3)),
    {
        self.incdec_instr(true, Target::Ix, 3)
    }

    /// INC (IY+d)
    pub fn inc_iydi(&mut self) -> (r: Result<(), CpuError>)
        ensures
            outcome(old(self)@, final(self)@, r, incdec_step(old(self)@, true, Target::Iy, 3)),
    {
        self.incdec_instr(true, Target::Iy, 3)
    }

    /// DEC r
    pub fn dec_r(&mut self) -> (r: Result<(), CpuError>)
        ensures
            outcome(old(self)@, final(self)@, r, incdec_step(old(self)@, false, Target::RegHigh, 1)),
    {
        self.incdec_instr(false, Target::RegHigh, 1)
    }

    /// DEC (HL)
    pub fn dec_hli(&mut self) -> (r: Result<(), CpuError>)
        ensures
            outcome(old(self)@, final(self)@, r, incdec_step(old(self)@, false, Target::Hl, 1)),
    {
        self.incdec_instr(false, Target::Hl, 1)
    }

    /// DEC (IX+d)
    pub fn dec_ixdi(&mut self) -> (r: Result<(), CpuError>)
        ensures
            outcome(old(self)@, final(self)@, r, incdec_step(old(self)@, false, Target::Ix, 3)),
    {
        self.incdec_instr(false, Target::Ix, 3)
    }

    /// DEC (IY+d)
    pub fn dec_iydi(&mut self) -> (r: Result<(), CpuError>)
        ensures
            outcome(old(self)@, final(self)@, r, incdec_step(old(self)@, false, Target::Iy, 3)),
    {
        self.incdec_instr(false, Target::Iy, 3)
    }
}

} // verus!

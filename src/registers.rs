//! Flag access, register selection and composite register access.

use vstd::prelude::*;
use crate::bytes::{high, low, promote};
use crate::cpu::{
    b2i, has_bit, pack_flags, parity_even, register_of, with_bit, Cpu, CpuError, Register,
    Register16, C_MASK, H_MASK, N_MASK, PV_MASK, S_MASK, Z_MASK,
};

verus! {

impl Cpu {
    /// Reads the flag selected by a one-bit mask.
    fn read_status_flag(&self, bitmask: u8) -> (r: bool)
        requires
            bitmask > 0,
        ensures
            r == has_bit(self.f, bitmask),
    {
        (self.f / bitmask) % 2 == 1
    }

    /// Sets or clears the flag selected by a one-bit mask.
    fn set_status_flag(&mut self, bitmask: u8, value: bool)
        requires
            bitmask == S_MASK || bitmask == Z_MASK || bitmask == H_MASK || bitmask == PV_MASK
                || bitmask == N_MASK || bitmask == C_MASK,
        ensures
            final(self)@ == old(self)@.with_f(with_bit(old(self).f, bitmask, value)),
    {
        let set = (self.f / bitmask) % 2 == 1;
        if set != value {
            if value {
                self.f = self.f + bitmask;
            } else {
                self.f = self.f - bitmask;
            }
        }
    }

    // ===== FLAG S =====

    /// Read the sign flag. False means positive, true is negative.
    pub fn get_s(&self) -> (r: bool)
        ensures
            r == self@.s(),
    {
        self.read_status_flag(S_MASK)
    }

    /// Set the sign flag.
    pub fn set_s(&mut self, value: bool)
        ensures
            final(self)@ == old(self)@.with_f(with_bit(old(self).f, S_MASK, value)),
    {
        self.set_status_flag(S_MASK, value);
    }

    /// Sets the sign flag to the most significant bit of a byte.
    pub fn set_s_from_msb(&mut self, byte: u8)
        ensures
            final(self)@ == old(self)@.with_f(with_bit(old(self).f, S_MASK, byte >= 0x80)),
    {
        self.set_s(byte >= 0x80);
    }

    /// Sets the sign flag to the most significant bit of a byte.
    pub fn set_s_from_byte(&mut self, byte: u8)
        ensures
            final(self)@ == old(self)@.with_f(with_bit(old(self).f, S_MASK, byte >= 0x80)),
    {
        self.set_s_from_msb(byte);
    }

    /// Sets the sign flag to the most significant bit of a word.
    pub fn set_s_from_msbw(&mut self, word: u16)
        ensures
            final(self)@ == old(self)@.with_f(with_bit(old(self).f, S_MASK, word >= 0x8000)),
    {
        self.set_s(word >= 0x8000);
    }

    /// Whether the sign flag says positive.
    pub fn sign_is_positive(&self) -> (r: bool)
        ensures
            r == !self@.s(),
    {
        !self.get_s()
    }

    /// Whether the sign flag says negative.
    pub fn sign_is_negative(&self) -> (r: bool)
        ensures
            r == self@.s(),
    {
        self.get_s()
    }

    // ===== FLAG Z =====

    /// Read the zero flag.
    pub fn get_z(&self) -> (r: bool)
        ensures
            r == self@.z(),
    {
        self.read_status_flag(Z_MASK)
    }

    /// Set the zero flag.
    pub fn set_z(&mut self, value: bool)
        ensures
            final(self)@ == old(self)@.with_f(with_bit(old(self).f, Z_MASK, value)),
    {
        self.set_status_flag(Z_MASK, value);
    }

    /// Sets the zero flag iff the byte is zero.
    pub fn set_z_from_byte(&mut self, byte: u8)
        ensures
            final(self)@ == old(self)@.with_f(with_bit(old(self).f, Z_MASK, byte == 0)),
    {
        self.set_z(byte == 0);
    }

    // ===== FLAG C =====

    /// Read the carry flag.
    pub fn get_c(&self) -> (r: bool)
        ensures
            r == self@.cf(),
    {
        self.read_status_flag(C_MASK)
    }

    /// Set the carry flag.
    pub fn set_c(&mut self, value: bool)
        ensures
            final(self)@ == old(self)@.with_f(with_bit(old(self).f, C_MASK, value)),
    {
        self.set_status_flag(C_MASK, value);
    }

    /// The carry flag as 0 or 1.
    pub fn get_c_value(&self) -> (r: u8)
        ensures
            r as int == b2i(self@.cf()),
    {
        if self.read_status_flag(C_MASK) {
            1
        } else {
            0
        }
    }

    // ===== FLAG H =====

    /// Read the half-carry flag.
    pub fn get_h(&self) -> (r: bool)
        ensures
            r == self@.hf(),
    {
        self.read_status_flag(H_MASK)
    }

    /// Set the half-carry flag.
    pub fn set_h(&mut self, value: bool)
        ensures
            final(self)@ == old(self)@.with_f(with_bit(old(self).f, H_MASK, value)),
    {
        self.set_status_flag(H_MASK, value);
    }

    /// Sets the half-carry flag from bit 4 of a byte, the carry out of bit 3 of a sum.
    pub fn set_h_from_byte(&mut self, byte: u8)
        ensures
            final(self)@ == old(self)@.with_f(with_bit(old(self).f, H_MASK, byte / 16 % 2 == 1)),
    {
        self.set_h(byte / 16 % 2 == 1);
    }

    // ===== FLAG PV =====

    /// Read the parity/overflow flag.
    pub fn get_pv(&self) -> (r: bool)
        ensures
            r == self@.pv(),
    {
        self.read_status_flag(PV_MASK)
    }

    /// Set the parity/overflow flag.
    pub fn set_pv(&mut self, value: bool)
        ensures
            final(self)@ == old(self)@.with_f(with_bit(old(self).f, PV_MASK, value)),
    {
        self.set_status_flag(PV_MASK, value);
    }

    /// Sets the parity/overflow flag to the even parity of a byte.
    pub fn set_pv_from_byte(&mut self, byte: u8)
        ensures
            final(self)@ == old(self)@.with_f(with_bit(old(self).f, PV_MASK, parity_even(byte))),
    {
        let p = Self::parity(byte);
        self.set_pv(p);
    }

    /// Even parity of a byte: true when the number of bits set is even.
    pub fn parity(x: u8) -> (r: bool)
        ensures
            r == parity_even(x),
    {
        let count: u8 = x % 2 + x / 2 % 2 + x / 4 % 2 + x / 8 % 2 + x / 16 % 2 + x / 32 % 2 + x / 64
            % 2 + x / 128 % 2;
        count % 2 == 0
    }

    /// Whether the parity flag says odd.
    pub fn parity_is_odd(&self) -> (r: bool)
        ensures
            r == !self@.pv(),
    {
        !self.read_status_flag(PV_MASK)
    }

    /// Whether the parity flag says even.
    pub fn parity_is_even(&self) -> (r: bool)
        ensures
            r == self@.pv(),
    {
        self.read_status_flag(PV_MASK)
    }

    /// Whether the overflow flag is set.
    pub fn overflow_flag_is_set(&self) -> (r: bool)
        ensures
            r == self@.pv(),
    {
        self.read_status_flag(PV_MASK)
    }

    // ===== FLAG N =====

    /// Read the add/subtract flag.
    pub fn get_n(&self) -> (r: bool)
        ensures
            r == self@.n(),
    {
        self.read_status_flag(N_MASK)
    }

    /// Set the add/subtract flag.
    pub fn set_n(&mut self, value: bool)
        ensures
            final(self)@ == old(self)@.with_f(with_bit(old(self).f, N_MASK, value)),
    {
        self.set_status_flag(N_MASK, value);
    }

    /// Replaces all six flags at once; the two unused bits of F are kept.
    pub fn set_flags(&mut self, s: bool, z: bool, h: bool, pv: bool, n: bool, c: bool)
        ensures
            final(self)@ == old(self)@.with_f(pack_flags(old(self).f, s, z, h, pv, n, c)),
    {
        self.f = Self::pack(self.f, s, z, h, pv, n, c);
    }

    /// The flag register holding the given flags, with the unused bits of `keep`.
    pub fn pack(keep: u8, s: bool, z: bool, h: bool, pv: bool, n: bool, c: bool) -> (r: u8)
        ensures
            r == pack_flags(keep, s, z, h, pv, n, c),
    {
        let k5: u16 = if keep % 64 >= 32 { 32 } else { 0 };
        let k3: u16 = if keep % 16 >= 8 { 8 } else { 0 };
        let fs: u16 = if s { 128 } else { 0 };
        let fz: u16 = if z { 64 } else { 0 };
        let fh: u16 = if h { 16 } else { 0 };
        let fpv: u16 = if pv { 4 } else { 0 };
        let fn_: u16 = if n { 2 } else { 0 };
        let fc: u16 = if c { 1 } else { 0 };
        (k5 + k3 + fs + fz + fh + fpv + fn_ + fc) as u8
    }

    // ===== Register selection =====

    /// Identifies a register from a 3-bit opcode field; 0b110 names none.
    pub fn select(field: u8) -> (r: Result<Register, CpuError>)
        ensures
            match register_of(field) {
                Some(reg) => r == Ok::<Register, CpuError>(reg),
                None => r == Err::<Register, CpuError>(CpuError::IllegalInstruction),
            },
    {
        match field {
            0b111 => Ok(Register::a),
            0b000 => Ok(Register::b),
            0b001 => Ok(Register::c),
            0b010 => Ok(Register::d),
            0b011 => Ok(Register::e),
            0b100 => Ok(Register::h),
            0b101 => Ok(Register::l),
            _ => Err(CpuError::IllegalInstruction),
        }
    }

    /// Select the source register named by bits 2..0 of an opcode.
    pub fn select_src(opcode: u8) -> (r: Result<Register, CpuError>)
        ensures
            match register_of(opcode % 8) {
                Some(reg) => r == Ok::<Register, CpuError>(reg),
                None => r == Err::<Register, CpuError>(CpuError::IllegalInstruction),
            },
    {
        Self::select(opcode % 8)
    }

    /// Select the destination register named by bits 5..3 of an opcode.
    pub fn select_dest(opcode: u8) -> (r: Result<Register, CpuError>)
        ensures
            match register_of(opcode / 8 % 8) {
                Some(reg) => r == Ok::<Register, CpuError>(reg),
                None => r == Err::<Register, CpuError>(CpuError::IllegalInstruction),
            },
    {
        Self::select(opcode / 8 % 8)
    }

    /// Select the register pair named by bits 5..4 of an opcode: BC, DE, HL or SP.
    pub fn select_reg16(opcode: u8) -> (r: Register16)
        ensures
            r == pair_of(opcode / 16 % 4, false),
    {
        match opcode / 16 % 4 {
            0 => Register16::bc,
            1 => Register16::de,
            2 => Register16::hl,
            _ => Register16::sp,
        }
    }

    /// Select the register pair named by bits 5..4 of a PUSH or POP: BC, DE, HL or AF.
    pub fn select_push16(opcode: u8) -> (r: Register16)
        ensures
            r == pair_of(opcode / 16 % 4, true),
    {
        match opcode / 16 % 4 {
            0 => Register16::bc,
            1 => Register16::de,
            2 => Register16::hl,
            _ => Register16::af,
        }
    }

    // ===== Register access =====

    pub fn read(&self, reg: Register) -> (r: u8)
        ensures
            r == self@.reg(reg),
    {
        match reg {
            Register::a => self.a,
            Register::b => self.b,
            Register::c => self.c,
            Register::d => self.d,
            Register::e => self.e,
            Register::h => self.h,
            Register::l => self.l,
        }
    }

    pub fn write(&mut self, reg: Register, value: u8)
        ensures
            final(self)@ == old(self)@.with_reg(reg, value),
    {
        match reg {
            Register::a => self.a = value,
            Register::b => self.b = value,
            Register::c => self.c = value,
            Register::d => self.d = value,
            Register::e => self.e = value,
            Register::h => self.h = value,
            Register::l => self.l = value,
        }
    }

    pub fn read16(&self, reg: Register16) -> (r: u16)
        ensures
            r == self@.reg16(reg),
    {
        match reg {
            Register16::af => self.read_af(),
            Register16::bc => self.read_bc(),
            Register16::de => self.read_de(),
            Register16::hl => self.read_hl(),
            Register16::sp => self.sp,
        }
    }

    pub fn write16(&mut self, reg: Register16, value: u16)
        ensures
            final(self)@ == old(self)@.with_reg16(reg, value),
    {
        match reg {
            Register16::af => self.write_af(value),
            Register16::bc => self.write_bc(value),
            Register16::de => self.write_de(value),
            Register16::hl => self.write_hl(value),
            Register16::sp => self.sp = value,
        }
    }

    pub fn read_af(&self) -> (r: u16)
        ensures
            r == self@.af(),
    {
        promote(self.a, self.f)
    }

    pub fn write_af(&mut self, value: u16)
        ensures
            final(self)@ == old(self)@.with_reg16(Register16::af, value),
    {
        self.a = high(value);
        self.f = low(value);
    }

    pub fn read_bc(&self) -> (r: u16)
        ensures
            r == self@.bc(),
    {
        promote(self.b, self.c)
    }

    pub fn write_bc(&mut self, value: u16)
        ensures
            final(self)@ == old(self)@.with_reg16(Register16::bc, value),
    {
        self.b = high(value);
        self.c = low(value);
    }

    /// Adds a signed amount to BC, wrapping on 16 bits.
    pub fn add_bc(&mut self, value: i16)
        ensures
            final(self)@ == old(self)@.with_reg16(
                Register16::bc,
                wrap16(old(self)@.bc() + value),
            ),
    {
        let bc = Self::add_signed(self.read_bc(), value);
        self.write_bc(bc);
    }

    pub fn read_de(&self) -> (r: u16)
        ensures
            r == self@.de(),
    {
        promote(self.d, self.e)
    }

    pub fn write_de(&mut self, value: u16)
        ensures
            final(self)@ == old(self)@.with_reg16(Register16::de, value),
    {
        self.d = high(value);
        self.e = low(value);
    }

    /// Adds a signed amount to DE, wrapping on 16 bits.
    pub fn add_de(&mut self, value: i16)
        ensures
            final(self)@ == old(self)@.with_reg16(
                Register16::de,
                wrap16(old(self)@.de() + value),
            ),
    {
        let de = Self::add_signed(self.read_de(), value);
        self.write_de(de);
    }

    pub fn read_hl(&self) -> (r: u16)
        ensures
            r == self@.hl(),
    {
        promote(self.h, self.l)
    }

    pub fn write_hl(&mut self, value: u16)
        ensures
            final(self)@ == old(self)@.with_reg16(Register16::hl, value),
    {
        self.h = high(value);
        self.l = low(value);
    }

    /// Adds a signed amount to HL, wrapping on 16 bits.
    pub fn add_hl(&mut self, value: i16)
        ensures
            final(self)@ == old(self)@.with_reg16(
                Register16::hl,
                wrap16(old(self)@.hl() + value),
            ),
    {
        let hl = Self::add_signed(self.read_hl(), value);
        self.write_hl(hl);
    }

    /// `w + v` wrapping on 16 bits.
    fn add_signed(w: u16, v: i16) -> (r: u16)
        ensures
            r == wrap16(w + v),
    {
        ((w as i32 + v as i32 + 0x10000) % 0x10000) as u16
    }
}

/// An integer taken modulo 2^16.
pub open spec fn wrap16(x: int) -> u16 {
    (x % 0x10000) as u16
}

/// The register pair that a 2-bit opcode field names; the last is AF for PUSH/POP, else SP.
pub open spec fn pair_of(field: u8, stack: bool) -> Register16 {
    if field == 0 {
        Register16::bc
    } else if field == 1 {
        Register16::de
    } else if field == 2 {
        Register16::hl
    } else if stack {
        Register16::af
    } else {
        Register16::sp
    }
}

} // verus!

//! Addressing modes: where an instruction finds its operand and where it puts its result.

use vstd::prelude::*;
use crate::cpu::{displaced, register_of, Cpu, CpuError, CpuView, Register};

verus! {

/// Where an 8-bit operand is read from.
#[derive(Debug, Clone, Copy, PartialEq, Eq, Structural)]
pub enum Source {
    /// The register named by bits 2..0 of the opcode byte.
    Reg,
    /// The byte after the opcode.
    Imm,
    /// The byte at the address held in HL.
    Hl,
    /// The byte at IX plus the displacement that follows the two opcode bytes.
    Ix,
    /// The byte at IY plus the displacement that follows the two opcode bytes.
    Iy,
}

/// A place that holds a byte: a register or a memory address inside the buffer.
#[derive(Debug, Clone, Copy, PartialEq, Eq, Structural)]
pub enum Loc {
    R(Register),
    M(usize),
}

/// Where a read-modify-write instruction finds its byte.
#[derive(Debug, Clone, Copy, PartialEq, Eq, Structural)]
pub enum Target {
    /// The register named by bits 5..3 of the opcode byte (INC r, DEC r).
    RegHigh,
    /// The register named by bits 2..0 of the byte after a 0xCB prefix.
    RegLow,
    /// The byte at the address held in HL.
    Hl,
    /// The byte at IX plus the displacement at offset 2.
    Ix,
    /// The byte at IY plus the displacement at offset 2.
    Iy,
}

/// The byte at `addr`, or the error for an address outside the buffer.
pub open spec fn mem_operand(s: CpuView, addr: int) -> Result<u8, CpuError> {
    if s.readable(addr) {
        Ok(s.byte(addr))
    } else {
        Err(CpuError::AddressOutOfRange)
    }
}

/// The register named by a 3-bit field, or the error for the field 0b110.
pub open spec fn reg_operand(s: CpuView, field: u8) -> Result<u8, CpuError> {
    match register_of(field) {
        Some(r) => Ok(s.reg(r)),
        None => Err(CpuError::IllegalInstruction),
    }
}

/// The value of an 8-bit operand.
pub open spec fn source_value(s: CpuView, src: Source) -> Result<u8, CpuError> {
    match src {
        Source::Reg => reg_operand(s, (s.fetch(0) % 8) as u8),
        Source::Imm => Ok(s.fetch(1)),
        Source::Hl => mem_operand(s, s.hl() as int),
        Source::Ix => mem_operand(s, displaced(s.ix, s.fetch(2))),
        Source::Iy => mem_operand(s, displaced(s.iy, s.fetch(2))),
    }
}

/// The encoded length of an instruction that reads an 8-bit operand.
pub open spec fn source_len(src: Source) -> int {
    match src {
        Source::Reg => 1,
        Source::Imm => 2,
        Source::Hl => 1,
        Source::Ix => 3,
        Source::Iy => 3,
    }
}

/// The location at a memory address, or the error for an address outside the buffer.
pub open spec fn mem_loc(s: CpuView, addr: int) -> Result<Loc, CpuError> {
    if s.readable(addr) {
        Ok(Loc::M(addr as usize))
    } else {
        Err(CpuError::AddressOutOfRange)
    }
}

/// The register location named by a 3-bit field, or the error for the field 0b110.
pub open spec fn reg_loc(field: u8) -> Result<Loc, CpuError> {
    match register_of(field) {
        Some(r) => Ok(Loc::R(r)),
        None => Err(CpuError::IllegalInstruction),
    }
}

/// The location that a read-modify-write instruction works on.
pub open spec fn target_loc(s: CpuView, t: Target) -> Result<Loc, CpuError> {
    match t {
        Target::RegHigh => reg_loc((s.fetch(0) / 8 % 8) as u8),
        Target::RegLow => reg_loc((s.fetch(1) % 8) as u8),
        Target::Hl => mem_loc(s, s.hl() as int),
        Target::Ix => mem_loc(s, displaced(s.ix, s.fetch(2))),
        Target::Iy => mem_loc(s, displaced(s.iy, s.fetch(2))),
    }
}

/// Whether a location lies inside the state.
pub open spec fn valid_loc(s: CpuView, loc: Loc) -> bool {
    match loc {
        Loc::R(_) => true,
        Loc::M(addr) => s.readable(addr as int),
    }
}

/// The byte held at a location.
pub open spec fn loc_value(s: CpuView, loc: Loc) -> u8 {
    match loc {
        Loc::R(r) => s.reg(r),
        Loc::M(addr) => s.byte(addr as int),
    }
}

/// The state with a location overwritten.
pub open spec fn with_loc(s: CpuView, loc: Loc, v: u8) -> CpuView {
    match loc {
        Loc::R(r) => s.with_reg(r, v),
        Loc::M(addr) => s.with_byte(addr as int, v),
    }
}

impl Cpu {
    /// The byte at `addr`, or the error for an address outside the buffer.
    pub fn mem_operand(&self, addr: usize) -> (r: Result<u8, CpuError>)
        ensures
            r == mem_operand(self@, addr as int),
    {
        if addr < self.memory.len() {
            Ok(self.memory[addr])
        } else {
            Err(CpuError::AddressOutOfRange)
        }
    }

    /// Reads an 8-bit operand.
    pub fn read_source(&self, src: Source) -> (r: Result<u8, CpuError>)
        requires
            self.memory.len() > 0,
        ensures
            r == source_value(self@, src),
    {
        match src {
            Source::Reg => {
                let op = self.memory_at_pc(0);
                match Self::select(op % 8) {
                    Ok(reg) => Ok(self.read(reg)),
                    Err(e) => Err(e),
                }
            },
            Source::Imm => Ok(self.memory_at_pc(1)),
            Source::Hl => self.mem_operand(self.read_hl() as usize),
            Source::Ix => {
                let d = self.memory_at_pc(2);
                self.mem_operand(Self::displace(self.ix, d))
            },
            Source::Iy => {
                let d = self.memory_at_pc(2);
                self.mem_operand(Self::displace(self.iy, d))
            },
        }
    }

    /// The encoded length of an instruction that reads an 8-bit operand.
    pub fn source_len(src: Source) -> (r: u16)
        ensures
            r as int == source_len(src),
    {
        match src {
            Source::Reg => 1,
            Source::Imm => 2,
            Source::Hl => 1,
            Source::Ix => 3,
            Source::Iy => 3,
        }
    }

    fn mem_loc(&self, addr: usize) -> (r: Result<Loc, CpuError>)
        ensures
            r == mem_loc(self@, addr as int),
    {
        if addr < self.memory.len() {
            Ok(Loc::M(addr))
        } else {
            Err(CpuError::AddressOutOfRange)
        }
    }

    fn reg_loc(field: u8) -> (r: Result<Loc, CpuError>)
        ensures
            r == reg_loc(field),
    {
        match Self::select(field) {
            Ok(reg) => Ok(Loc::R(reg)),
            Err(e) => Err(e),
        }
    }

    /// Finds the location that a read-modify-write instruction works on.
    pub fn locate(&self, t: Target) -> (r: Result<Loc, CpuError>)
        requires
            self.memory.len() > 0,
        ensures
            r == target_loc(self@, t),
            r is Ok ==> valid_loc(self@, r->Ok_0),
    {
        match t {
            Target::RegHigh => Self::reg_loc(self.memory_at_pc(0) / 8 % 8),
            Target::RegLow => Self::reg_loc(self.memory_at_pc(1) % 8),
            Target::Hl => self.mem_loc(self.read_hl() as usize),
            Target::Ix => {
                let d = self.memory_at_pc(2);
                self.mem_loc(Self::displace(self.ix, d))
            },
            Target::Iy => {
                let d = self.memory_at_pc(2);
                self.mem_loc(Self::displace(self.iy, d))
            },
        }
    }

    /// The byte held at a location.
    pub(crate) fn read_loc(&self, loc: Loc) -> (r: u8)
        requires
            valid_loc(self@, loc),
        ensures
            r == loc_value(self@, loc),
    {
        match loc {
            Loc::R(reg) => self.read(reg),
            Loc::M(addr) => self.memory[addr],
        }
    }

    /// Overwrites the byte at a location.
    pub(crate) fn write_loc(&mut self, loc: Loc, v: u8)
        requires
            valid_loc(old(self)@, loc),
        ensures
            final(self)@ == with_loc(old(self)@, loc, v),
    {
        match loc {
            Loc::R(reg) => self.write(reg, v),
            Loc::M(addr) => self.store(addr, v),
        }
    }
}

} // verus!

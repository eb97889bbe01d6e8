//! Register arithmetic on plain integers: bytes, words and byte pairs.

use vstd::prelude::*;
use crate::bytes::{high, low, promote, word_of};

verus! {

/// Arithmetic and bit operations on a register of 8 or 16 bits.
pub trait RegisterOperations<T>: Sized {
    /// The register's value.
    spec fn val(&self) -> int;

    /// The value of an operand.
    spec fn val_of(t: T) -> int;

    /// The number of values the register can hold.
    spec fn size() -> int;

    /// The value after setting the bits of `m`.
    spec fn or_val(&self, m: T) -> int;

    /// The value after clearing the bits that `m` does not hold.
    spec fn and_val(&self, m: T) -> int;

    /// Whether the most significant bit is set.
    fn msb(&self) -> (r: bool)
        ensures
            r == (self.val() * 2 >= Self::size()),
    ;

    /// Whether the least significant bit is set.
    fn lsb(&self) -> (r: bool)
        ensures
            r == (self.val() % 2 == 1),
    ;

    /// Adds one, wrapping; returns the new value and whether it wrapped.
    fn incr(&mut self) -> (r: (T, bool))
        ensures
            final(self).val() == (old(self).val() + 1) % Self::size(),
            Self::val_of(r.0) == final(self).val(),
            r.1 == (old(self).val() + 1 >= Self::size()),
    ;

    /// Subtracts one, wrapping; returns the new value and whether it wrapped.
    fn decr(&mut self) -> (r: (T, bool))
        ensures
            final(self).val() == (old(self).val() - 1) % Self::size(),
            Self::val_of(r.0) == final(self).val(),
            r.1 == (old(self).val() < 1),
    ;

    /// Adds `value`, wrapping; returns the new value and the carry.
    fn reg_add(&mut self, value: T) -> (r: (T, bool))
        ensures
            final(self).val() == (old(self).val() + Self::val_of(value)) % Self::size(),
            Self::val_of(r.0) == final(self).val(),
            r.1 == (old(self).val() + Self::val_of(value) >= Self::size()),
    ;

    /// Subtracts `value`, wrapping; returns the new value and the borrow.
    fn reg_sub(&mut self, value: T) -> (r: (T, bool))
        ensures
            final(self).val() == (old(self).val() - Self::val_of(value)) % Self::size(),
            Self::val_of(r.0) == final(self).val(),
            r.1 == (old(self).val() < Self::val_of(value)),
    ;

    /// Whether the value is zero.
    fn is_zero(&self) -> (r: bool)
        ensures
            r == (self.val() == 0),
    ;

    /// Sets the bits of `bitmask`; returns the new value.
    fn set(&mut self, bitmask: T) -> (r: T)
        ensures
            final(self).val() == old(self).or_val(bitmask),
            Self::val_of(r) == final(self).val(),
    ;

    /// Clears the bits that `bitmask` does not hold; returns the new value.
    fn reset(&mut self, bitmask: T) -> (r: T)
        ensures
            final(self).val() == old(self).and_val(bitmask),
            Self::val_of(r) == final(self).val(),
    ;
}

/// The two bytes of a 16-bit register.
pub trait RegisterDemote<T>: Sized {
    /// The value of the whole register.
    spec fn whole(&self) -> int;

    /// The value of one byte.
    spec fn part(t: T) -> int;

    fn high(&self) -> (r: T)
        ensures
            Self::part(r) == self.whole() / 256,
    ;

    fn low(&self) -> (r: T)
        ensures
            Self::part(r) == self.whole() % 256,
    ;
}

/// A 16-bit value made of two bytes.
pub trait RegisterPromote<T>: Sized {
    /// The value that the bytes stand for.
    spec fn joined(&self) -> int;

    spec fn word(t: T) -> int;

    fn promote(&self) -> (r: T)
        ensures
            Self::word(r) == self.joined(),
    ;
}

impl RegisterOperations<u8> for u8 {
    open spec fn val(&self) -> int {
        *self as int
    }

    open spec fn val_of(t: u8) -> int {
        t as int
    }

    open spec fn size() -> int {
        0x100
    }

    open spec fn or_val(&self, m: u8) -> int {
        (*self | m) as int
    }

    open spec fn and_val(&self, m: u8) -> int {
        (*self & m) as int
    }

    fn msb(&self) -> (r: bool) {
        *self >= 0x80
    }

    fn lsb(&self) -> (r: bool) {
        *self % 2 == 1
    }

    fn incr(&mut self) -> (r: (u8, bool)) {
        self.reg_add(1)
    }

    fn decr(&mut self) -> (r: (u8, bool)) {
        self.reg_sub(1)
    }

    fn reg_add(&mut self, value: u8) -> (r: (u8, bool)) {
        let sum = *self as u16 + value as u16;
        *self = (sum % 0x100) as u8;
        (*self, sum >= 0x100)
    }

    fn reg_sub(&mut self, value: u8) -> (r: (u8, bool)) {
        let borrow = *self < value;
        *self = ((*self as u16 + 0x100 - value as u16) % 0x100) as u8;
        (*self, borrow)
    }

    fn is_zero(&self) -> (r: bool) {
        *self == 0
    }

    fn set(&mut self, bitmask: u8) -> (r: u8) {
        *self = *self | bitmask;
        *self
    }

    fn reset(&mut self, bitmask: u8) -> (r: u8) {
        *self = *self & bitmask;
        *self
    }
}

impl RegisterOperations<u16> for u16 {
    open spec fn val(&self) -> int {
        *self as int
    }

    open spec fn val_of(t: u16) -> int {
        t as int
    }

    open spec fn size() -> int {
        0x10000
    }

    open spec fn or_val(&self, m: u16) -> int {
        (*self | m) as int
    }

    open spec fn and_val(&self, m: u16) -> int {
        (*self & m) as int
    }

    fn msb(&self) -> (r: bool) {
        *self >= 0x8000
    }

    fn lsb(&self) -> (r: bool) {
        *self % 2 == 1
    }

    fn incr(&mut self) -> (r: (u16, bool)) {
        self.reg_add(1)
    }

    fn decr(&mut self) -> (r: (u16, bool)) {
        self.reg_sub(1)
    }

    fn reg_add(&mut self, value: u16) -> (r: (u16, bool)) {
        let sum = *self as u32 + value as u32;
        *self = (sum % 0x10000) as u16;
        (*self, sum >= 0x10000)
    }

    fn reg_sub(&mut self, value: u16) -> (r: (u16, bool)) {
        let borrow = *self < value;
        *self = ((*self as u32 + 0x10000 - value as u32) % 0x10000) as u16;
        (*self, borrow)
    }

    fn is_zero(&self) -> (r: bool) {
        *self == 0
    }

    fn set(&mut self, bitmask: u16) -> (r: u16) {
        *self = *self | bitmask;
        *self
    }

    fn reset(&mut self, bitmask: u16) -> (r: u16) {
        *self = *self & bitmask;
        *self
    }
}

impl RegisterDemote<u8> for u16 {
    open spec fn whole(&self) -> int {
        *self as int
    }

    open spec fn part(t: u8) -> int {
        t as int
    }

    fn high(&self) -> (r: u8) {
        high(*self)
    }

    fn low(&self) -> (r: u8) {
        low(*self)
    }
}

impl RegisterDemote<u8> for (u8, u8) {
    open spec fn whole(&self) -> int {
        word_of(self.0, self.1) as int
    }

    open spec fn part(t: u8) -> int {
        t as int
    }

    fn high(&self) -> (r: u8) {
        self.0
    }

    fn low(&self) -> (r: u8) {
        self.1
    }
}

impl RegisterPromote<u16> for (u8, u8) {
    open spec fn joined(&self) -> int {
        word_of(self.0, self.1) as int
    }

    open spec fn word(t: u16) -> int {
        t as int
    }

    fn promote(&self) -> (r: u16) {
        promote(self.0, self.1)
    }
}

impl RegisterOperations<u16> for (u8, u8) {
    open spec fn val(&self) -> int {
        word_of(self.0, self.1) as int
    }

    open spec fn val_of(t: u16) -> int {
        t as int
    }

    open spec fn size() -> int {
        0x10000
    }

    open spec fn or_val(&self, m: u16) -> int {
        (word_of(self.0, self.1) | m) as int
    }

    open spec fn and_val(&self, m: u16) -> int {
        (word_of(self.0, self.1) & m) as int
    }

    fn msb(&self) -> (r: bool) {
        self.0 >= 0x80
    }

    fn lsb(&self) -> (r: bool) {
        self.1 % 2 == 1
    }

    fn incr(&mut self) -> (r: (u16, bool)) {
        self.reg_add(1)
    }

    fn decr(&mut self) -> (r: (u16, bool)) {
        self.reg_sub(1)
    }

    fn reg_add(&mut self, value: u16) -> (r: (u16, bool)) {
        let mut w = promote(self.0, self.1);
        let r = w.reg_add(value);
        self.0 = high(w);
        self.1 = low(w);
        r
    }

    fn reg_sub(&mut self, value: u16) -> (r: (u16, bool)) {
        let mut w = promote(self.0, self.1);
        let r = w.reg_sub(value);
        self.0 = high(w);
        self.1 = low(w);
        r
    }

    fn is_zero(&self) -> (r: bool) {
        self.0 == 0 && self.1 == 0
    }

    fn set(&mut self, bitmask: u16) -> (r: u16) {
        let mut w = promote(self.0, self.1);
        let r = w.set(bitmask);
        self.0 = high(w);
        self.1 = low(w);
        r
    }

    fn reset(&mut self, bitmask: u16) -> (r: u16) {
        let mut w = promote(self.0, self.1);
        let r = w.reset(bitmask);
        self.0 = high(w);
        self.1 = low(w);
        r
    }
}

/// A 16-bit register made of a high and a low byte.
#[derive(Debug, Clone, Copy, PartialEq, Eq, Structural)]
pub struct WideReg {
    pub h: u8,
    pub l: u8,
}

impl WideReg {
    pub fn new(value: u16) -> (r: WideReg)
        ensures
            word_of(r.h, r.l) == value,
    {
        WideReg { h: high(value), l: low(value) }
    }

    /// Returns the 16 bit register value.
    pub fn read(&self) -> (r: u16)
        ensures
            r == word_of(self.h, self.l),
    {
        promote(self.h, self.l)
    }

    /// Writes the 16 bit register value.
    pub fn write(&mut self, value: u16)
        ensures
            word_of(final(self).h, final(self).l) == value,
    {
        self.h = high(value);
        self.l = low(value);
    }

    /// Most significant bit of the 16 bit register value.
    pub fn msb(&self) -> (r: bool)
        ensures
            r == (word_of(self.h, self.l) >= 0x8000),
    {
        self.h >= 0x80
    }

    /// Least significant bit of the 16 bit register value.
    pub fn lsb(&self) -> (r: bool)
        ensures
            r == (word_of(self.h, self.l) % 2 == 1),
    {
        self.l % 2 == 1
    }

    /// Returns the 8 bit high register value.
    pub fn read_h(&self) -> (r: u8)
        ensures
            r == self.h,
    {
        self.h
    }

    /// Writes the 8 bit high register value.
    pub fn write_h(&mut self, value: u8)
        ensures
            *final(self) == (WideReg { h: value, l: old(self).l }),
    {
        self.h = value;
    }

    /// Most significant bit of the 8 bit high register value.
    pub fn msb_h(&self) -> (r: bool)
        ensures
            r == (self.h >= 0x80),
    {
        self.h >= 0x80
    }

    /// Least significant bit of the 8 bit high register value.
    pub fn lsb_h(&self) -> (r: bool)
        ensures
            r == (self.h % 2 == 1),
    {
        self.h % 2 == 1
    }

    /// Returns the 8 bit low register value.
    pub fn read_l(&self) -> (r: u8)
        ensures
            r == self.l,
    {
        self.l
    }

    /// Writes the 8 bit low register value.
    pub fn write_l(&mut self, value: u8)
        ensures
            *final(self) == (WideReg { h: old(self).h, l: value }),
    {
        self.l = value;
    }

    /// Most significant bit of the 8 bit low register value.
    pub fn msb_l(&self) -> (r: bool)
        ensures
            r == (self.l >= 0x80),
    {
        self.l >= 0x80
    }

    /// Least significant bit of the 8 bit low register value.
    pub fn lsb_l(&self) -> (r: bool)
        ensures
            r == (self.l % 2 == 1),
    {
        self.l % 2 == 1
    }
}

} // verus!

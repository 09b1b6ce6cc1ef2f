//! SysTick timer register values.
//!
//! `CtrlValue` is the control-and-status register, `LoadValue` the reload
//! value register. Each wraps the raw 32-bit word and exposes its fields;
//! the contracts state exactly which bit a field occupies and that a setter
//! leaves every other bit alone.

use vstd::prelude::*;

use crate::bits::{bit_read, bit_write, field_read, field_write, lemma_bit_write_effect,
    lemma_field_write_effect};

verus! {

/// SysTick control and status register value.
#[derive(Clone, Copy, PartialEq, Eq, Structural)]
pub struct CtrlValue {
    pub bits: u32,
}

impl CtrlValue {
    /// Wraps a raw register word.
    pub fn new(bits: u32) -> (r: Self)
        ensures
            r.bits == bits,
    {
        Self { bits }
    }

    /// Returns `true` if the timer counted to `0` since last time this was
    /// read.
    pub fn countflag(&self) -> (r: bool)
        ensures
            r == bit_read(self.bits, 16),
    {
        self.bits & (1u32 << 16u32) != 0
    }

    /// Clock source selection.
    pub fn clksource(&self) -> (r: bool)
        ensures
            r == bit_read(self.bits, 2),
    {
        self.bits & (1u32 << 2u32) != 0
    }

    /// Clock source selection.
    pub fn set_clksource(&mut self, value: bool) -> (r: &mut Self)
        ensures
            r.bits == bit_write(old(self).bits, 2, value),
            *final(self) == *final(r),
            bit_read(r.bits, 2) == value,
            forall|i: u32|
                i < 32 && i != 2 ==> #[trigger] bit_read(r.bits, i)
                    == bit_read(old(self).bits, i),
    {
        proof {
            lemma_bit_write_effect(self.bits, 2, value);
        }
        if value {
            self.bits = self.bits | (1u32 << 2u32);
        } else {
            self.bits = self.bits & !(1u32 << 2u32);
        }
        self
    }

    /// SysTick exception request enable.
    pub fn tickint(&self) -> (r: bool)
        ensures
            r == bit_read(self.bits, 1),
    {
        self.bits & (1u32 << 1u32) != 0
    }

    /// SysTick exception request enable.
    pub fn set_tickint(&mut self, value: bool) -> (r: &mut Self)
        ensures
            r.bits == bit_write(old(self).bits, 1, value),
            *final(self) == *final(r),
            bit_read(r.bits, 1) == value,
            forall|i: u32|
                i < 32 && i != 1 ==> #[trigger] bit_read(r.bits, i)
                    == bit_read(old(self).bits, i),
    {
        proof {
            lemma_bit_write_effect(self.bits, 1, value);
        }
        if value {
            self.bits = self.bits | (1u32 << 1u32);
        } else {
            self.bits = self.bits & !(1u32 << 1u32);
        }
        self
    }

    /// Counter enable.
    pub fn enable(&self) -> (r: bool)
        ensures
            r == bit_read(self.bits, 0),
    {
        self.bits & (1u32 << 0u32) != 0
    }

    /// Counter enable.
    pub fn set_enable(&mut self, value: bool) -> (r: &mut Self)
        ensures
            r.bits == bit_write(old(self).bits, 0, value),
            *final(self) == *final(r),
            bit_read(r.bits, 0) == value,
            forall|i: u32|
                0 < i < 32 ==> #[trigger] bit_read(r.bits, i)
                    == bit_read(old(self).bits, i),
    {
        proof {
            lemma_bit_write_effect(self.bits, 0, value);
        }
        if value {
            self.bits = self.bits | (1u32 << 0u32);
        } else {
            self.bits = self.bits & !(1u32 << 0u32);
        }
        self
    }
}

/// SysTick reload value register value.
#[derive(Clone, Copy, PartialEq, Eq, Structural)]
pub struct LoadValue {
    pub bits: u32,
}

impl LoadValue {
    /// Wraps a raw register word.
    pub fn new(bits: u32) -> (r: Self)
        ensures
            r.bits == bits,
    {
        Self { bits }
    }

    /// RELOAD value: the low 24 bits.
    pub fn reload(&self) -> (r: u32)
        ensures
            r == field_read(self.bits, 24),
            r < 0x0100_0000,
    {
        let bits: u32 = self.bits;
        proof {
            assert(bits & !(u32::MAX << 24u32) < 0x0100_0000) by (bit_vector);
        }
        bits & !(u32::MAX << 24u32)
    }

    /// Replaces the RELOAD value with the low 24 bits of `value`, leaving the
    /// reserved high bits unchanged.
    pub fn set_reload(&mut self, value: u32) -> (r: &mut Self)
        ensures
            r.bits == field_write(old(self).bits, 24, value),
            *final(self) == *final(r),
            field_read(r.bits, 24) == field_read(value, 24),
            forall|i: u32|
                24 <= i < 32 ==> #[trigger] bit_read(r.bits, i) == bit_read(old(self).bits, i),
    {
        proof {
            lemma_field_write_effect(self.bits, 24, value);
        }
        self.bits = (self.bits & (u32::MAX << 24u32)) | (value & !(u32::MAX << 24u32));
        self
    }
}

} // verus!

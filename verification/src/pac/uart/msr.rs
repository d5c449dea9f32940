use vstd::prelude::*;
use crate::pac::generic::{bit_of, read_bit, with_bit, write_bit};

verus! {

/// The modem status register of the serial port.
#[derive(Clone, Copy, Debug, PartialEq, Eq, Structural)]
pub struct MSR_SPEC;

impl MSR_SPEC {
    /// The value of the register after a reset.
    pub fn reset_value() -> (bits: u32)
        ensures
            bits == 0,
    {
        0
    }
}

/// A value read from the modem status register.
#[derive(Clone, Copy, Debug, PartialEq, Eq, Structural)]
pub struct R {
    pub bits: u32,
}

/// A value to be written to the modem status register.
#[derive(Debug, PartialEq, Eq, Structural)]
pub struct W {
    pub bits: u32,
}

/// Delta Clear to Send: the values of the field `dcts`.
#[derive(Clone, Copy, Debug, PartialEq, Eq, Structural)]
pub enum DCTS_A {
    NO_CHANGE,
    CHANGE,
}

impl DCTS_A {
    /// The bit that stands for the value.
    pub open spec fn spec_bit(self) -> bool {
        match self {
            DCTS_A::NO_CHANGE => false,
            DCTS_A::CHANGE => true,
        }
    }

    /// The bit that stands for the value.
    #[verifier::when_used_as_spec(spec_bit)]
    pub fn bit(self) -> (b: bool)
        ensures
            b == self.spec_bit(),
    {
        match self {
            DCTS_A::NO_CHANGE => false,
            DCTS_A::CHANGE => true,
        }
    }
}

/// Delta Clear to Send: the field `dcts` of a value read, which is bit 0.
#[derive(Clone, Copy, Debug, PartialEq, Eq, Structural)]
pub struct DCTS_R {
    pub bits: bool,
}

impl DCTS_R {
    /// The field with the bit `bits`.
    pub fn new(bits: bool) -> (r: DCTS_R)
        ensures
            r.bits == bits,
    {
        DCTS_R { bits }
    }

    /// The bit of the field.
    pub fn bit(&self) -> (b: bool)
        ensures
            b == self.bits,
    {
        self.bits
    }

    /// Whether the bit of the field is 0.
    pub fn bit_is_clear(&self) -> (b: bool)
        ensures
            b == !self.bits,
    {
        !self.bits
    }

    /// Whether the bit of the field is 1.
    pub fn bit_is_set(&self) -> (b: bool)
        ensures
            b == self.bits,
    {
        self.bits
    }

    /// The value that the bit of the field stands for: `NO_CHANGE` for 0, `CHANGE` for 1.
    pub fn variant(&self) -> (v: DCTS_A)
        ensures
            v == (if self.bits {
                DCTS_A::CHANGE
            } else {
                DCTS_A::NO_CHANGE
            }),
    {
        match self.bits {
            false => DCTS_A::NO_CHANGE,
            true => DCTS_A::CHANGE,
        }
    }

    /// Whether the field holds `NO_CHANGE`.
    pub fn is_no_change(&self) -> (b: bool)
        ensures
            b == (self.bits == DCTS_A::NO_CHANGE.spec_bit()),
    {
        self.bits == false
    }

    /// Whether the field holds `CHANGE`.
    pub fn is_change(&self) -> (b: bool)
        ensures
            b == (self.bits == DCTS_A::CHANGE.spec_bit()),
    {
        self.bits == true
    }
}

/// Delta Clear to Send: the field `dcts` of a value to be written, which is bit 0.
pub struct DCTS_W<'a> {
    pub w: &'a mut W,
}

impl<'a> DCTS_W<'a> {
    /// Sets the bit of the field to `value` and leaves every other bit
    /// of the register value as it is.
    pub fn bit(self, value: bool) -> (w: &'a mut W)
        ensures
            w.bits == with_bit(old(self.w).bits, 0, value),
            *final(self.w) == *final(w),
    {
        self.w.bits = write_bit(self.w.bits, 0, value);
        self.w
    }

    /// Sets the bit of the field to 1.
    pub fn set_bit(self) -> (w: &'a mut W)
        ensures
            w.bits == with_bit(old(self.w).bits, 0, true),
            *final(self.w) == *final(w),
    {
        self.bit(true)
    }

    /// Sets the bit of the field to 0.
    pub fn clear_bit(self) -> (w: &'a mut W)
        ensures
            w.bits == with_bit(old(self.w).bits, 0, false),
            *final(self.w) == *final(w),
    {
        self.bit(false)
    }

    /// Sets the field to the value `variant`.
    pub fn variant(self, variant: DCTS_A) -> (w: &'a mut W)
        ensures
            w.bits == with_bit(old(self.w).bits, 0, variant.spec_bit()),
            *final(self.w) == *final(w),
    {
        self.bit(variant.bit())
    }

    /// Sets the field to `NO_CHANGE`.
    pub fn no_change(self) -> (w: &'a mut W)
        ensures
            w.bits == with_bit(old(self.w).bits, 0, DCTS_A::NO_CHANGE.spec_bit()),
            *final(self.w) == *final(w),
    {
        self.variant(DCTS_A::NO_CHANGE)
    }

    /// Sets the field to `CHANGE`.
    pub fn change(self) -> (w: &'a mut W)
        ensures
            w.bits == with_bit(old(self.w).bits, 0, DCTS_A::CHANGE.spec_bit()),
            *final(self.w) == *final(w),
    {
        self.variant(DCTS_A::CHANGE)
    }
}

/// Delta Data Set Ready: the values of the field `ddsr`.
#[derive(Clone, Copy, Debug, PartialEq, Eq, Structural)]
pub enum DDSR_A {
    NO_CHANGE,
    CHANGE,
}

impl DDSR_A {
    /// The bit that stands for the value.
    pub open spec fn spec_bit(self) -> bool {
        match self {
            DDSR_A::NO_CHANGE => false,
            DDSR_A::CHANGE => true,
        }
    }

    /// The bit that stands for the value.
    #[verifier::when_used_as_spec(spec_bit)]
    pub fn bit(self) -> (b: bool)
        ensures
            b == self.spec_bit(),
    {
        match self {
            DDSR_A::NO_CHANGE => false,
            DDSR_A::CHANGE => true,
        }
    }
}

/// Delta Data Set Ready: the field `ddsr` of a value read, which is bit 1.
#[derive(Clone, Copy, Debug, PartialEq, Eq, Structural)]
pub struct DDSR_R {
    pub bits: bool,
}

impl DDSR_R {
    /// The field with the bit `bits`.
    pub fn new(bits: bool) -> (r: DDSR_R)
        ensures
            r.bits == bits,
    {
        DDSR_R { bits }
    }

    /// The bit of the field.
    pub fn bit(&self) -> (b: bool)
        ensures
            b == self.bits,
    {
        self.bits
    }

    /// Whether the bit of the field is 0.
    pub fn bit_is_clear(&self) -> (b: bool)
        ensures
            b == !self.bits,
    {
        !self.bits
    }

    /// Whether the bit of the field is 1.
    pub fn bit_is_set(&self) -> (b: bool)
        ensures
            b == self.bits,
    {
        self.bits
    }

    /// The value that the bit of the field stands for: `NO_CHANGE` for 0, `CHANGE` for 1.
    pub fn variant(&self) -> (v: DDSR_A)
        ensures
            v == (if self.bits {
                DDSR_A::CHANGE
            } else {
                DDSR_A::NO_CHANGE
            }),
    {
        match self.bits {
            false => DDSR_A::NO_CHANGE,
            true => DDSR_A::CHANGE,
        }
    }

    /// Whether the field holds `NO_CHANGE`.
    pub fn is_no_change(&self) -> (b: bool)
        ensures
            b == (self.bits == DDSR_A::NO_CHANGE.spec_bit()),
    {
        self.bits == false
    }

    /// Whether the field holds `CHANGE`.
    pub fn is_change(&self) -> (b: bool)
        ensures
            b == (self.bits == DDSR_A::CHANGE.spec_bit()),
    {
        self.bits == true
    }
}

/// Delta Data Set Ready: the field `ddsr` of a value to be written, which is bit 1.
pub struct DDSR_W<'a> {
    pub w: &'a mut W,
}

impl<'a> DDSR_W<'a> {
    /// Sets the bit of the field to `value` and leaves every other bit
    /// of the register value as it is.
    pub fn bit(self, value: bool) -> (w: &'a mut W)
        ensures
            w.bits == with_bit(old(self.w).bits, 1, value),
            *final(self.w) == *final(w),
    {
        self.w.bits = write_bit(self.w.bits, 1, value);
        self.w
    }

    /// Sets the bit of the field to 1.
    pub fn set_bit(self) -> (w: &'a mut W)
        ensures
            w.bits == with_bit(old(self.w).bits, 1, true),
            *final(self.w) == *final(w),
    {
        self.bit(true)
    }

    /// Sets the bit of the field to 0.
    pub fn clear_bit(self) -> (w: &'a mut W)
        ensures
            w.bits == with_bit(old(self.w).bits, 1, false),
            *final(self.w) == *final(w),
    {
        self.bit(false)
    }

    /// Sets the field to the value `variant`.
    pub fn variant(self, variant: DDSR_A) -> (w: &'a mut W)
        ensures
            w.bits == with_bit(old(self.w).bits, 1, variant.spec_bit()),
            *final(self.w) == *final(w),
    {
        self.bit(variant.bit())
    }

    /// Sets the field to `NO_CHANGE`.
    pub fn no_change(self) -> (w: &'a mut W)
        ensures
            w.bits == with_bit(old(self.w).bits, 1, DDSR_A::NO_CHANGE.spec_bit()),
            *final(self.w) == *final(w),
    {
        self.variant(DDSR_A::NO_CHANGE)
    }

    /// Sets the field to `CHANGE`.
    pub fn change(self) -> (w: &'a mut W)
        ensures
            w.bits == with_bit(old(self.w).bits, 1, DDSR_A::CHANGE.spec_bit()),
            *final(self.w) == *final(w),
    {
        self.variant(DDSR_A::CHANGE)
    }
}

/// Trailing Edge Ring Indicator: the values of the field `teri`.
#[derive(Clone, Copy, Debug, PartialEq, Eq, Structural)]
pub enum TERI_A {
    NO_CHANGE,
    CHANGE,
}

impl TERI_A {
    /// The bit that stands for the value.
    pub open spec fn spec_bit(self) -> bool {
        match self {
            TERI_A::NO_CHANGE => false,
            TERI_A::CHANGE => true,
        }
    }

    /// The bit that stands for the value.
    #[verifier::when_used_as_spec(spec_bit)]
    pub fn bit(self) -> (b: bool)
        ensures
            b == self.spec_bit(),
    {
        match self {
            TERI_A::NO_CHANGE => false,
            TERI_A::CHANGE => true,
        }
    }
}

/// Trailing Edge Ring Indicator: the field `teri` of a value read, which is bit 2.
#[derive(Clone, Copy, Debug, PartialEq, Eq, Structural)]
pub struct TERI_R {
    pub bits: bool,
}

impl TERI_R {
    /// The field with the bit `bits`.
    pub fn new(bits: bool) -> (r: TERI_R)
        ensures
            r.bits == bits,
    {
        TERI_R { bits }
    }

    /// The bit of the field.
    pub fn bit(&self) -> (b: bool)
        ensures
            b == self.bits,
    {
        self.bits
    }

    /// Whether the bit of the field is 0.
    pub fn bit_is_clear(&self) -> (b: bool)
        ensures
            b == !self.bits,
    {
        !self.bits
    }

    /// Whether the bit of the field is 1.
    pub fn bit_is_set(&self) -> (b: bool)
        ensures
            b == self.bits,
    {
        self.bits
    }

    /// The value that the bit of the field stands for: `NO_CHANGE` for 0, `CHANGE` for 1.
    pub fn variant(&self) -> (v: TERI_A)
        ensures
            v == (if self.bits {
                TERI_A::CHANGE
            } else {
                TERI_A::NO_CHANGE
            }),
    {
        match self.bits {
            false => TERI_A::NO_CHANGE,
            true => TERI_A::CHANGE,
        }
    }

    /// Whether the field holds `NO_CHANGE`.
    pub fn is_no_change(&self) -> (b: bool)
        ensures
            b == (self.bits == TERI_A::NO_CHANGE.spec_bit()),
    {
        self.bits == false
    }

    /// Whether the field holds `CHANGE`.
    pub fn is_change(&self) -> (b: bool)
        ensures
            b == (self.bits == TERI_A::CHANGE.spec_bit()),
    {
        self.bits == true
    }
}

/// Trailing Edge Ring Indicator: the field `teri` of a value to be written, which is bit 2.
pub struct TERI_W<'a> {
    pub w: &'a mut W,
}

impl<'a> TERI_W<'a> {
    /// Sets the bit of the field to `value` and leaves every other bit
    /// of the register value as it is.
    pub fn bit(self, value: bool) -> (w: &'a mut W)
        ensures
            w.bits == with_bit(old(self.w).bits, 2, value),
            *final(self.w) == *final(w),
    {
        self.w.bits = write_bit(self.w.bits, 2, value);
        self.w
    }

    /// Sets the bit of the field to 1.
    pub fn set_bit(self) -> (w: &'a mut W)
        ensures
            w.bits == with_bit(old(self.w).bits, 2, true),
            *final(self.w) == *final(w),
    {
        self.bit(true)
    }

    /// Sets the bit of the field to 0.
    pub fn clear_bit(self) -> (w: &'a mut W)
        ensures
            w.bits == with_bit(old(self.w).bits, 2, false),
            *final(self.w) == *final(w),
    {
        self.bit(false)
    }

    /// Sets the field to the value `variant`.
    pub fn variant(self, variant: TERI_A) -> (w: &'a mut W)
        ensures
            w.bits == with_bit(old(self.w).bits, 2, variant.spec_bit()),
            *final(self.w) == *final(w),
    {
        self.bit(variant.bit())
    }

    /// Sets the field to `NO_CHANGE`.
    pub fn no_change(self) -> (w: &'a mut W)
        ensures
            w.bits == with_bit(old(self.w).bits, 2, TERI_A::NO_CHANGE.spec_bit()),
            *final(self.w) == *final(w),
    {
        self.variant(TERI_A::NO_CHANGE)
    }

    /// Sets the field to `CHANGE`.
    pub fn change(self) -> (w: &'a mut W)
        ensures
            w.bits == with_bit(old(self.w).bits, 2, TERI_A::CHANGE.spec_bit()),
            *final(self.w) == *final(w),
    {
        self.variant(TERI_A::CHANGE)
    }
}

/// Delta Data Carrier Detect: the values of the field `ddcd`.
#[derive(Clone, Copy, Debug, PartialEq, Eq, Structural)]
pub enum DDCD_A {
    NO_CHANGE,
    CHANGE,
}

impl DDCD_A {
    /// The bit that stands for the value.
    pub open spec fn spec_bit(self) -> bool {
        match self {
            DDCD_A::NO_CHANGE => false,
            DDCD_A::CHANGE => true,
        }
    }

    /// The bit that stands for the value.
    #[verifier::when_used_as_spec(spec_bit)]
    pub fn bit(self) -> (b: bool)
        ensures
            b == self.spec_bit(),
    {
        match self {
            DDCD_A::NO_CHANGE => false,
            DDCD_A::CHANGE => true,
        }
    }
}

/// Delta Data Carrier Detect: the field `ddcd` of a value read, which is bit 3.
#[derive(Clone, Copy, Debug, PartialEq, Eq, Structural)]
pub struct DDCD_R {
    pub bits: bool,
}

impl DDCD_R {
    /// The field with the bit `bits`.
    pub fn new(bits: bool) -> (r: DDCD_R)
        ensures
            r.bits == bits,
    {
        DDCD_R { bits }
    }

    /// The bit of the field.
    pub fn bit(&self) -> (b: bool)
        ensures
            b == self.bits,
    {
        self.bits
    }

    /// Whether the bit of the field is 0.
    pub fn bit_is_clear(&self) -> (b: bool)
        ensures
            b == !self.bits,
    {
        !self.bits
    }

    /// Whether the bit of the field is 1.
    pub fn bit_is_set(&self) -> (b: bool)
        ensures
            b == self.bits,
    {
        self.bits
    }

    /// The value that the bit of the field stands for: `NO_CHANGE` for 0, `CHANGE` for 1.
    pub fn variant(&self) -> (v: DDCD_A)
        ensures
            v == (if self.bits {
                DDCD_A::CHANGE
            } else {
                DDCD_A::NO_CHANGE
            }),
    {
        match self.bits {
            false => DDCD_A::NO_CHANGE,
            true => DDCD_A::CHANGE,
        }
    }

    /// Whether the field holds `NO_CHANGE`.
    pub fn is_no_change(&self) -> (b: bool)
        ensures
            b == (self.bits == DDCD_A::NO_CHANGE.spec_bit()),
    {
        self.bits == false
    }

    /// Whether the field holds `CHANGE`.
    pub fn is_change(&self) -> (b: bool)
        ensures
            b == (self.bits == DDCD_A::CHANGE.spec_bit()),
    {
        self.bits == true
    }
}

/// Delta Data Carrier Detect: the field `ddcd` of a value to be written, which is bit 3.
pub struct DDCD_W<'a> {
    pub w: &'a mut W,
}

impl<'a> DDCD_W<'a> {
    /// Sets the bit of the field to `value` and leaves every other bit
    /// of the register value as it is.
    pub fn bit(self, value: bool) -> (w: &'a mut W)
        ensures
            w.bits == with_bit(old(self.w).bits, 3, value),
            *final(self.w) == *final(w),
    {
        self.w.bits = write_bit(self.w.bits, 3, value);
        self.w
    }

    /// Sets the bit of the field to 1.
    pub fn set_bit(self) -> (w: &'a mut W)
        ensures
            w.bits == with_bit(old(self.w).bits, 3, true),
            *final(self.w) == *final(w),
    {
        self.bit(true)
    }

    /// Sets the bit of the field to 0.
    pub fn clear_bit(self) -> (w: &'a mut W)
        ensures
            w.bits == with_bit(old(self.w).bits, 3, false),
            *final(self.w) == *final(w),
    {
        self.bit(false)
    }

    /// Sets the field to the value `variant`.
    pub fn variant(self, variant: DDCD_A) -> (w: &'a mut W)
        ensures
            w.bits == with_bit(old(self.w).bits, 3, variant.spec_bit()),
            *final(self.w) == *final(w),
    {
        self.bit(variant.bit())
    }

    /// Sets the field to `NO_CHANGE`.
    pub fn no_change(self) -> (w: &'a mut W)
        ensures
            w.bits == with_bit(old(self.w).bits, 3, DDCD_A::NO_CHANGE.spec_bit()),
            *final(self.w) == *final(w),
    {
        self.variant(DDCD_A::NO_CHANGE)
    }

    /// Sets the field to `CHANGE`.
    pub fn change(self) -> (w: &'a mut W)
        ensures
            w.bits == with_bit(old(self.w).bits, 3, DDCD_A::CHANGE.spec_bit()),
            *final(self.w) == *final(w),
    {
        self.variant(DDCD_A::CHANGE)
    }
}

/// Line State of Clear To Send: the values of the field `cts`.
#[derive(Clone, Copy, Debug, PartialEq, Eq, Structural)]
pub enum CTS_A {
    DEASSERTED,
    ASSERTED,
}

impl CTS_A {
    /// The bit that stands for the value.
    pub open spec fn spec_bit(self) -> bool {
        match self {
            CTS_A::DEASSERTED => false,
            CTS_A::ASSERTED => true,
        }
    }

    /// The bit that stands for the value.
    #[verifier::when_used_as_spec(spec_bit)]
    pub fn bit(self) -> (b: bool)
        ensures
            b == self.spec_bit(),
    {
        match self {
            CTS_A::DEASSERTED => false,
            CTS_A::ASSERTED => true,
        }
    }
}

/// Line State of Clear To Send: the field `cts` of a value read, which is bit 4.
#[derive(Clone, Copy, Debug, PartialEq, Eq, Structural)]
pub struct CTS_R {
    pub bits: bool,
}

impl CTS_R {
    /// The field with the bit `bits`.
    pub fn new(bits: bool) -> (r: CTS_R)
        ensures
            r.bits == bits,
    {
        CTS_R { bits }
    }

    /// The bit of the field.
    pub fn bit(&self) -> (b: bool)
        ensures
            b == self.bits,
    {
        self.bits
    }

    /// Whether the bit of the field is 0.
    pub fn bit_is_clear(&self) -> (b: bool)
        ensures
            b == !self.bits,
    {
        !self.bits
    }

    /// Whether the bit of the field is 1.
    pub fn bit_is_set(&self) -> (b: bool)
        ensures
            b == self.bits,
    {
        self.bits
    }

    /// The value that the bit of the field stands for: `DEASSERTED` for 0, `ASSERTED` for 1.
    pub fn variant(&self) -> (v: CTS_A)
        ensures
            v == (if self.bits {
                CTS_A::ASSERTED
            } else {
                CTS_A::DEASSERTED
            }),
    {
        match self.bits {
            false => CTS_A::DEASSERTED,
            true => CTS_A::ASSERTED,
        }
    }

    /// Whether the field holds `DEASSERTED`.
    pub fn is_deasserted(&self) -> (b: bool)
        ensures
            b == (self.bits == CTS_A::DEASSERTED.spec_bit()),
    {
        self.bits == false
    }

    /// Whether the field holds `ASSERTED`.
    pub fn is_asserted(&self) -> (b: bool)
        ensures
            b == (self.bits == CTS_A::ASSERTED.spec_bit()),
    {
        self.bits == true
    }
}

/// Line State of Clear To Send: the field `cts` of a value to be written, which is bit 4.
pub struct CTS_W<'a> {
    pub w: &'a mut W,
}

impl<'a> CTS_W<'a> {
    /// Sets the bit of the field to `value` and leaves every other bit
    /// of the register value as it is.
    pub fn bit(self, value: bool) -> (w: &'a mut W)
        ensures
            w.bits == with_bit(old(self.w).bits, 4, value),
            *final(self.w) == *final(w),
    {
        self.w.bits = write_bit(self.w.bits, 4, value);
        self.w
    }

    /// Sets the bit of the field to 1.
    pub fn set_bit(self) -> (w: &'a mut W)
        ensures
            w.bits == with_bit(old(self.w).bits, 4, true),
            *final(self.w) == *final(w),
    {
        self.bit(true)
    }

    /// Sets the bit of the field to 0.
    pub fn clear_bit(self) -> (w: &'a mut W)
        ensures
            w.bits == with_bit(old(self.w).bits, 4, false),
            *final(self.w) == *final(w),
    {
        self.bit(false)
    }

    /// Sets the field to the value `variant`.
    pub fn variant(self, variant: CTS_A) -> (w: &'a mut W)
        ensures
            w.bits == with_bit(old(self.w).bits, 4, variant.spec_bit()),
            *final(self.w) == *final(w),
    {
        self.bit(variant.bit())
    }

    /// Sets the field to `DEASSERTED`.
    pub fn deasserted(self) -> (w: &'a mut W)
        ensures
            w.bits == with_bit(old(self.w).bits, 4, CTS_A::DEASSERTED.spec_bit()),
            *final(self.w) == *final(w),
    {
        self.variant(CTS_A::DEASSERTED)
    }

    /// Sets the field to `ASSERTED`.
    pub fn asserted(self) -> (w: &'a mut W)
        ensures
            w.bits == with_bit(old(self.w).bits, 4, CTS_A::ASSERTED.spec_bit()),
            *final(self.w) == *final(w),
    {
        self.variant(CTS_A::ASSERTED)
    }
}

/// Line State of Data Set Ready: the values of the field `dsr`.
#[derive(Clone, Copy, Debug, PartialEq, Eq, Structural)]
pub enum DSR_A {
    DEASSERTED,
    ASSERTED,
}

impl DSR_A {
    /// The bit that stands for the value.
    pub open spec fn spec_bit(self) -> bool {
        match self {
            DSR_A::DEASSERTED => false,
            DSR_A::ASSERTED => true,
        }
    }

    /// The bit that stands for the value.
    #[verifier::when_used_as_spec(spec_bit)]
    pub fn bit(self) -> (b: bool)
        ensures
            b == self.spec_bit(),
    {
        match self {
            DSR_A::DEASSERTED => false,
            DSR_A::ASSERTED => true,
        }
    }
}

/// Line State of Data Set Ready: the field `dsr` of a value read, which is bit 5.
#[derive(Clone, Copy, Debug, PartialEq, Eq, Structural)]
pub struct DSR_R {
    pub bits: bool,
}

impl DSR_R {
    /// The field with the bit `bits`.
    pub fn new(bits: bool) -> (r: DSR_R)
        ensures
            r.bits == bits,
    {
        DSR_R { bits }
    }

    /// The bit of the field.
    pub fn bit(&self) -> (b: bool)
        ensures
            b == self.bits,
    {
        self.bits
    }

    /// Whether the bit of the field is 0.
    pub fn bit_is_clear(&self) -> (b: bool)
        ensures
            b == !self.bits,
    {
        !self.bits
    }

    /// Whether the bit of the field is 1.
    pub fn bit_is_set(&self) -> (b: bool)
        ensures
            b == self.bits,
    {
        self.bits
    }

    /// The value that the bit of the field stands for: `DEASSERTED` for 0, `ASSERTED` for 1.
    pub fn variant(&self) -> (v: DSR_A)
        ensures
            v == (if self.bits {
                DSR_A::ASSERTED
            } else {
                DSR_A::DEASSERTED
            }),
    {
        match self.bits {
            false => DSR_A::DEASSERTED,
            true => DSR_A::ASSERTED,
        }
    }

    /// Whether the field holds `DEASSERTED`.
    pub fn is_deasserted(&self) -> (b: bool)
        ensures
            b == (self.bits == DSR_A::DEASSERTED.spec_bit()),
    {
        self.bits == false
    }

    /// Whether the field holds `ASSERTED`.
    pub fn is_asserted(&self) -> (b: bool)
        ensures
            b == (self.bits == DSR_A::ASSERTED.spec_bit()),
    {
        self.bits == true
    }
}

/// Line State of Data Set Ready: the field `dsr` of a value to be written, which is bit 5.
pub struct DSR_W<'a> {
    pub w: &'a mut W,
}

impl<'a> DSR_W<'a> {
    /// Sets the bit of the field to `value` and leaves every other bit
    /// of the register value as it is.
    pub fn bit(self, value: bool) -> (w: &'a mut W)
        ensures
            w.bits == with_bit(old(self.w).bits, 5, value),
            *final(self.w) == *final(w),
    {
        self.w.bits = write_bit(self.w.bits, 5, value);
        self.w
    }

    /// Sets the bit of the field to 1.
    pub fn set_bit(self) -> (w: &'a mut W)
        ensures
            w.bits == with_bit(old(self.w).bits, 5, true),
            *final(self.w) == *final(w),
    {
        self.bit(true)
    }

    /// Sets the bit of the field to 0.
    pub fn clear_bit(self) -> (w: &'a mut W)
        ensures
            w.bits == with_bit(old(self.w).bits, 5, false),
            *final(self.w) == *final(w),
    {
        self.bit(false)
    }

    /// Sets the field to the value `variant`.
    pub fn variant(self, variant: DSR_A) -> (w: &'a mut W)
        ensures
            w.bits == with_bit(old(self.w).bits, 5, variant.spec_bit()),
            *final(self.w) == *final(w),
    {
        self.bit(variant.bit())
    }

    /// Sets the field to `DEASSERTED`.
    pub fn deasserted(self) -> (w: &'a mut W)
        ensures
            w.bits == with_bit(old(self.w).bits, 5, DSR_A::DEASSERTED.spec_bit()),
            *final(self.w) == *final(w),
    {
        self.variant(DSR_A::DEASSERTED)
    }

    /// Sets the field to `ASSERTED`.
    pub fn asserted(self) -> (w: &'a mut W)
        ensures
            w.bits == with_bit(old(self.w).bits, 5, DSR_A::ASSERTED.spec_bit()),
            *final(self.w) == *final(w),
    {
        self.variant(DSR_A::ASSERTED)
    }
}

/// Line State of Ring Indicator: the values of the field `ri`.
#[derive(Clone, Copy, Debug, PartialEq, Eq, Structural)]
pub enum RI_A {
    DEASSERTED,
    ASSERTED,
}

impl RI_A {
    /// The bit that stands for the value.
    pub open spec fn spec_bit(self) -> bool {
        match self {
            RI_A::DEASSERTED => false,
            RI_A::ASSERTED => true,
        }
    }

    /// The bit that stands for the value.
    #[verifier::when_used_as_spec(spec_bit)]
    pub fn bit(self) -> (b: bool)
        ensures
            b == self.spec_bit(),
    {
        match self {
            RI_A::DEASSERTED => false,
            RI_A::ASSERTED => true,
        }
    }
}

/// Line State of Ring Indicator: the field `ri` of a value read, which is bit 6.
#[derive(Clone, Copy, Debug, PartialEq, Eq, Structural)]
pub struct RI_R {
    pub bits: bool,
}

impl RI_R {
    /// The field with the bit `bits`.
    pub fn new(bits: bool) -> (r: RI_R)
        ensures
            r.bits == bits,
    {
        RI_R { bits }
    }

    /// The bit of the field.
    pub fn bit(&self) -> (b: bool)
        ensures
            b == self.bits,
    {
        self.bits
    }

    /// Whether the bit of the field is 0.
    pub fn bit_is_clear(&self) -> (b: bool)
        ensures
            b == !self.bits,
    {
        !self.bits
    }

    /// Whether the bit of the field is 1.
    pub fn bit_is_set(&self) -> (b: bool)
        ensures
            b == self.bits,
    {
        self.bits
    }

    /// The value that the bit of the field stands for: `DEASSERTED` for 0, `ASSERTED` for 1.
    pub fn variant(&self) -> (v: RI_A)
        ensures
            v == (if self.bits {
                RI_A::ASSERTED
            } else {
                RI_A::DEASSERTED
            }),
    {
        match self.bits {
            false => RI_A::DEASSERTED,
            true => RI_A::ASSERTED,
        }
    }

    /// Whether the field holds `DEASSERTED`.
    pub fn is_deasserted(&self) -> (b: bool)
        ensures
            b == (self.bits == RI_A::DEASSERTED.spec_bit()),
    {
        self.bits == false
    }

    /// Whether the field holds `ASSERTED`.
    pub fn is_asserted(&self) -> (b: bool)
        ensures
            b == (self.bits == RI_A::ASSERTED.spec_bit()),
    {
        self.bits == true
    }
}

/// Line State of Ring Indicator: the field `ri` of a value to be written, which is bit 6.
pub struct RI_W<'a> {
    pub w: &'a mut W,
}

impl<'a> RI_W<'a> {
    /// Sets the bit of the field to `value` and leaves every other bit
    /// of the register value as it is.
    pub fn bit(self, value: bool) -> (w: &'a mut W)
        ensures
            w.bits == with_bit(old(self.w).bits, 6, value),
            *final(self.w) == *final(w),
    {
        self.w.bits = write_bit(self.w.bits, 6, value);
        self.w
    }

    /// Sets the bit of the field to 1.
    pub fn set_bit(self) -> (w: &'a mut W)
        ensures
            w.bits == with_bit(old(self.w).bits, 6, true),
            *final(self.w) == *final(w),
    {
        self.bit(true)
    }

    /// Sets the bit of the field to 0.
    pub fn clear_bit(self) -> (w: &'a mut W)
        ensures
            w.bits == with_bit(old(self.w).bits, 6, false),
            *final(self.w) == *final(w),
    {
        self.bit(false)
    }

    /// Sets the field to the value `variant`.
    pub fn variant(self, variant: RI_A) -> (w: &'a mut W)
        ensures
            w.bits == with_bit(old(self.w).bits, 6, variant.spec_bit()),
            *final(self.w) == *final(w),
    {
        self.bit(variant.bit())
    }

    /// Sets the field to `DEASSERTED`.
    pub fn deasserted(self) -> (w: &'a mut W)
        ensures
            w.bits == with_bit(old(self.w).bits, 6, RI_A::DEASSERTED.spec_bit()),
            *final(self.w) == *final(w),
    {
        self.variant(RI_A::DEASSERTED)
    }

    /// Sets the field to `ASSERTED`.
    pub fn asserted(self) -> (w: &'a mut W)
        ensures
            w.bits == with_bit(old(self.w).bits, 6, RI_A::ASSERTED.spec_bit()),
            *final(self.w) == *final(w),
    {
        self.variant(RI_A::ASSERTED)
    }
}

/// Line State of Data Carrier Detect: the values of the field `dcd`.
#[derive(Clone, Copy, Debug, PartialEq, Eq, Structural)]
pub enum DCD_A {
    DEASSERTED,
    ASSERTED,
}

impl DCD_A {
    /// The bit that stands for the value.
    pub open spec fn spec_bit(self) -> bool {
        match self {
            DCD_A::DEASSERTED => false,
            DCD_A::ASSERTED => true,
        }
    }

    /// The bit that stands for the value.
    #[verifier::when_used_as_spec(spec_bit)]
    pub fn bit(self) -> (b: bool)
        ensures
            b == self.spec_bit(),
    {
        match self {
            DCD_A::DEASSERTED => false,
            DCD_A::ASSERTED => true,
        }
    }
}

/// Line State of Data Carrier Detect: the field `dcd` of a value read, which is bit 7.
#[derive(Clone, Copy, Debug, PartialEq, Eq, Structural)]
pub struct DCD_R {
    pub bits: bool,
}

impl DCD_R {
    /// The field with the bit `bits`.
    pub fn new(bits: bool) -> (r: DCD_R)
        ensures
            r.bits == bits,
    {
        DCD_R { bits }
    }

    /// The bit of the field.
    pub fn bit(&self) -> (b: bool)
        ensures
            b == self.bits,
    {
        self.bits
    }

    /// Whether the bit of the field is 0.
    pub fn bit_is_clear(&self) -> (b: bool)
        ensures
            b == !self.bits,
    {
        !self.bits
    }

    /// Whether the bit of the field is 1.
    pub fn bit_is_set(&self) -> (b: bool)
        ensures
            b == self.bits,
    {
        self.bits
    }

    /// The value that the bit of the field stands for: `DEASSERTED` for 0, `ASSERTED` for 1.
    pub fn variant(&self) -> (v: DCD_A)
        ensures
            v == (if self.bits {
                DCD_A::ASSERTED
            } else {
                DCD_A::DEASSERTED
            }),
    {
        match self.bits {
            false => DCD_A::DEASSERTED,
            true => DCD_A::ASSERTED,
        }
    }

    /// Whether the field holds `DEASSERTED`.
    pub fn is_deasserted(&self) -> (b: bool)
        ensures
            b == (self.bits == DCD_A::DEASSERTED.spec_bit()),
    {
        self.bits == false
    }

    /// Whether the field holds `ASSERTED`.
    pub fn is_asserted(&self) -> (b: bool)
        ensures
            b == (self.bits == DCD_A::ASSERTED.spec_bit()),
    {
        self.bits == true
    }
}

/// Line State of Data Carrier Detect: the field `dcd` of a value to be written, which is bit 7.
pub struct DCD_W<'a> {
    pub w: &'a mut W,
}

impl<'a> DCD_W<'a> {
    /// Sets the bit of the field to `value` and leaves every other bit
    /// of the register value as it is.
    pub fn bit(self, value: bool) -> (w: &'a mut W)
        ensures
            w.bits == with_bit(old(self.w).bits, 7, value),
            *final(self.w) == *final(w),
    {
        self.w.bits = write_bit(self.w.bits, 7, value);
        self.w
    }

    /// Sets the bit of the field to 1.
    pub fn set_bit(self) -> (w: &'a mut W)
        ensures
            w.bits == with_bit(old(self.w).bits, 7, true),
            *final(self.w) == *final(w),
    {
        self.bit(true)
    }

    /// Sets the bit of the field to 0.
    pub fn clear_bit(self) -> (w: &'a mut W)
        ensures
            w.bits == with_bit(old(self.w).bits, 7, false),
            *final(self.w) == *final(w),
    {
        self.bit(false)
    }

    /// Sets the field to the value `variant`.
    pub fn variant(self, variant: DCD_A) -> (w: &'a mut W)
        ensures
            w.bits == with_bit(old(self.w).bits, 7, variant.spec_bit()),
            *final(self.w) == *final(w),
    {
        self.bit(variant.bit())
    }

    /// Sets the field to `DEASSERTED`.
    pub fn deasserted(self) -> (w: &'a mut W)
        ensures
            w.bits == with_bit(old(self.w).bits, 7, DCD_A::DEASSERTED.spec_bit()),
            *final(self.w) == *final(w),
    {
        self.variant(DCD_A::DEASSERTED)
    }

    /// Sets the field to `ASSERTED`.
    pub fn asserted(self) -> (w: &'a mut W)
        ensures
            w.bits == with_bit(old(self.w).bits, 7, DCD_A::ASSERTED.spec_bit()),
            *final(self.w) == *final(w),
    {
        self.variant(DCD_A::ASSERTED)
    }
}

impl R {
    /// The value read that has the bits `bits`.
    pub fn new(bits: u32) -> (r: R)
        ensures
            r.bits == bits,
    {
        R { bits }
    }

    /// The bits of the value.
    pub fn bits(&self) -> (bits: u32)
        ensures
            bits == self.bits,
    {
        self.bits
    }

    /// Bit 0: Delta Clear to Send.
    pub fn dcts(&self) -> (field: DCTS_R)
        ensures
            field.bits == bit_of(self.bits, 0),
    {
        DCTS_R::new(read_bit(self.bits, 0))
    }

    /// Bit 1: Delta Data Set Ready.
    pub fn ddsr(&self) -> (field: DDSR_R)
        ensures
            field.bits == bit_of(self.bits, 1),
    {
        DDSR_R::new(read_bit(self.bits, 1))
    }

    /// Bit 2: Trailing Edge Ring Indicator.
    pub fn teri(&self) -> (field: TERI_R)
        ensures
            field.bits == bit_of(self.bits, 2),
    {
        TERI_R::new(read_bit(self.bits, 2))
    }

    /// Bit 3: Delta Data Carrier Detect.
    pub fn ddcd(&self) -> (field: DDCD_R)
        ensures
            field.bits == bit_of(self.bits, 3),
    {
        DDCD_R::new(read_bit(self.bits, 3))
    }

    /// Bit 4: Line State of Clear To Send.
    pub fn cts(&self) -> (field: CTS_R)
        ensures
            field.bits == bit_of(self.bits, 4),
    {
        CTS_R::new(read_bit(self.bits, 4))
    }

    /// Bit 5: Line State of Data Set Ready.
    pub fn dsr(&self) -> (field: DSR_R)
        ensures
            field.bits == bit_of(self.bits, 5),
    {
        DSR_R::new(read_bit(self.bits, 5))
    }

    /// Bit 6: Line State of Ring Indicator.
    pub fn ri(&self) -> (field: RI_R)
        ensures
            field.bits == bit_of(self.bits, 6),
    {
        RI_R::new(read_bit(self.bits, 6))
    }

    /// Bit 7: Line State of Data Carrier Detect.
    pub fn dcd(&self) -> (field: DCD_R)
        ensures
            field.bits == bit_of(self.bits, 7),
    {
        DCD_R::new(read_bit(self.bits, 7))
    }
}

impl W {
    /// The value to be written that a reset leaves in the register.
    pub fn new() -> (w: W)
        ensures
            w.bits == 0,
    {
        W { bits: 0 }
    }

    /// The bits of the value as they stand.
    pub fn value(&self) -> (bits: u32)
        ensures
            bits == self.bits,
    {
        self.bits
    }

    /// Bit 0: Delta Clear to Send.
    pub fn dcts(&mut self) -> (field: DCTS_W<'_>)
        ensures
            *field.w == *old(self),
            *final(self) == *final(field.w),
    {
        DCTS_W { w: self }
    }

    /// Bit 1: Delta Data Set Ready.
    pub fn ddsr(&mut self) -> (field: DDSR_W<'_>)
        ensures
            *field.w == *old(self),
            *final(self) == *final(field.w),
    {
        DDSR_W { w: self }
    }

    /// Bit 2: Trailing Edge Ring Indicator.
    pub fn teri(&mut self) -> (field: TERI_W<'_>)
        ensures
            *field.w == *old(self),
            *final(self) == *final(field.w),
    {
        TERI_W { w: self }
    }

    /// Bit 3: Delta Data Carrier Detect.
    pub fn ddcd(&mut self) -> (field: DDCD_W<'_>)
        ensures
            *field.w == *old(self),
            *final(self) == *final(field.w),
    {
        DDCD_W { w: self }
    }

    /// Bit 4: Line State of Clear To Send.
    pub fn cts(&mut self) -> (field: CTS_W<'_>)
        ensures
            *field.w == *old(self),
            *final(self) == *final(field.w),
    {
        CTS_W { w: self }
    }

    /// Bit 5: Line State of Data Set Ready.
    pub fn dsr(&mut self) -> (field: DSR_W<'_>)
        ensures
            *field.w == *old(self),
            *final(self) == *final(field.w),
    {
        DSR_W { w: self }
    }

    /// Bit 6: Line State of Ring Indicator.
    pub fn ri(&mut self) -> (field: RI_W<'_>)
        ensures
            *field.w == *old(self),
            *final(self) == *final(field.w),
    {
        RI_W { w: self }
    }

    /// Bit 7: Line State of Data Carrier Detect.
    pub fn dcd(&mut self) -> (field: DCD_W<'_>)
        ensures
            *field.w == *old(self),
            *final(self) == *final(field.w),
    {
        DCD_W { w: self }
    }
}

} // verus!

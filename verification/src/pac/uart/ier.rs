use vstd::prelude::*;
use crate::pac::generic::{bit_of, read_bit, with_bit, write_bit};

verus! {

/// The interrupt enable register of the serial port.
#[derive(Clone, Copy, Debug, PartialEq, Eq, Structural)]
pub struct IER_SPEC;

impl IER_SPEC {
    /// The value of the register after a reset.
    pub fn reset_value() -> (bits: u32)
        ensures
            bits == 0,
    {
        0
    }
}

/// A value read from the interrupt enable register.
#[derive(Clone, Copy, Debug, PartialEq, Eq, Structural)]
pub struct R {
    pub bits: u32,
}

/// A value to be written to the interrupt enable register.
#[derive(Debug, PartialEq, Eq, Structural)]
pub struct W {
    pub bits: u32,
}

/// Enable Received Data Available Interrupt: the values of the field `erbfi`.
#[derive(Clone, Copy, Debug, PartialEq, Eq, Structural)]
pub enum ERBFI_A {
    DISABLE,
    ENABLE,
}

impl ERBFI_A {
    /// The bit that stands for the value.
    pub open spec fn spec_bit(self) -> bool {
        match self {
            ERBFI_A::DISABLE => false,
            ERBFI_A::ENABLE => true,
        }
    }

    /// The bit that stands for the value.
    #[verifier::when_used_as_spec(spec_bit)]
    pub fn bit(self) -> (b: bool)
        ensures
            b == self.spec_bit(),
    {
        match self {
            ERBFI_A::DISABLE => false,
            ERBFI_A::ENABLE => true,
        }
    }
}

/// Enable Received Data Available Interrupt: the field `erbfi` of a value read, which is bit 0.
#[derive(Clone, Copy, Debug, PartialEq, Eq, Structural)]
pub struct ERBFI_R {
    pub bits: bool,
}

impl ERBFI_R {
    /// The field with the bit `bits`.
    pub fn new(bits: bool) -> (r: ERBFI_R)
        ensures
            r.bits == bits,
    {
        ERBFI_R { bits }
    }

    /// The bit of the field.
    pub fn bit(&self) -> (b: bool)
        ensures
            b == self.bits,
    {
        self.bits
    }

    /// Whether the bit of the field is 0.
    pub fn bit_is_clear(&self) -> (b: bool)
        ensures
            b == !self.bits,
    {
        !self.bits
    }

    /// Whether the bit of the field is 1.
    pub fn bit_is_set(&self) -> (b: bool)
        ensures
            b == self.bits,
    {
        self.bits
    }

    /// The value that the bit of the field stands for: `DISABLE` for 0, `ENABLE` for 1.
    pub fn variant(&self) -> (v: ERBFI_A)
        ensures
            v == (if self.bits {
                ERBFI_A::ENABLE
            } else {
                ERBFI_A::DISABLE
            }),
    {
        match self.bits {
            false => ERBFI_A::DISABLE,
            true => ERBFI_A::ENABLE,
        }
    }

    /// Whether the field holds `DISABLE`.
    pub fn is_disable(&self) -> (b: bool)
        ensures
            b == (self.bits == ERBFI_A::DISABLE.spec_bit()),
    {
        self.bits == false
    }

    /// Whether the field holds `ENABLE`.
    pub fn is_enable(&self) -> (b: bool)
        ensures
            b == (self.bits == ERBFI_A::ENABLE.spec_bit()),
    {
        self.bits == true
    }
}

/// Enable Received Data Available Interrupt: the field `erbfi` of a value to be written, which is bit 0.
pub struct ERBFI_W<'a> {
    pub w: &'a mut W,
}

impl<'a> ERBFI_W<'a> {
    /// Sets the bit of the field to `value` and leaves every other bit
    /// of the register value as it is.
    pub fn bit(self, value: bool) -> (w: &'a mut W)
        ensures
            w.bits == with_bit(old(self.w).bits, 0, value),
            *final(self.w) == *final(w),
    {
        self.w.bits = write_bit(self.w.bits, 0, value);
        self.w
    }

    /// Sets the bit of the field to 1.
    pub fn set_bit(self) -> (w: &'a mut W)
        ensures
            w.bits == with_bit(old(self.w).bits, 0, true),
            *final(self.w) == *final(w),
    {
        self.bit(true)
    }

    /// Sets the bit of the field to 0.
    pub fn clear_bit(self) -> (w: &'a mut W)
        ensures
            w.bits == with_bit(old(self.w).bits, 0, false),
            *final(self.w) == *final(w),
    {
        self.bit(false)
    }

    /// Sets the field to the value `variant`.
    pub fn variant(self, variant: ERBFI_A) -> (w: &'a mut W)
        ensures
            w.bits == with_bit(old(self.w).bits, 0, variant.spec_bit()),
            *final(self.w) == *final(w),
    {
        self.bit(variant.bit())
    }

    /// Sets the field to `DISABLE`.
    pub fn disable(self) -> (w: &'a mut W)
        ensures
            w.bits == with_bit(old(self.w).bits, 0, ERBFI_A::DISABLE.spec_bit()),
            *final(self.w) == *final(w),
    {
        self.variant(ERBFI_A::DISABLE)
    }

    /// Sets the field to `ENABLE`.
    pub fn enable(self) -> (w: &'a mut W)
        ensures
            w.bits == with_bit(old(self.w).bits, 0, ERBFI_A::ENABLE.spec_bit()),
            *final(self.w) == *final(w),
    {
        self.variant(ERBFI_A::ENABLE)
    }
}

/// Enable Transmit Holding Register Empty Interrupt: the values of the field `etbei`.
#[derive(Clone, Copy, Debug, PartialEq, Eq, Structural)]
pub enum ETBEI_A {
    DISABLE,
    ENABLE,
}

impl ETBEI_A {
    /// The bit that stands for the value.
    pub open spec fn spec_bit(self) -> bool {
        match self {
            ETBEI_A::DISABLE => false,
            ETBEI_A::ENABLE => true,
        }
    }

    /// The bit that stands for the value.
    #[verifier::when_used_as_spec(spec_bit)]
    pub fn bit(self) -> (b: bool)
        ensures
            b == self.spec_bit(),
    {
        match self {
            ETBEI_A::DISABLE => false,
            ETBEI_A::ENABLE => true,
        }
    }
}

/// Enable Transmit Holding Register Empty Interrupt: the field `etbei` of a value read, which is bit 1.
#[derive(Clone, Copy, Debug, PartialEq, Eq, Structural)]
pub struct ETBEI_R {
    pub bits: bool,
}

impl ETBEI_R {
    /// The field with the bit `bits`.
    pub fn new(bits: bool) -> (r: ETBEI_R)
        ensures
            r.bits == bits,
    {
        ETBEI_R { bits }
    }

    /// The bit of the field.
    pub fn bit(&self) -> (b: bool)
        ensures
            b == self.bits,
    {
        self.bits
    }

    /// Whether the bit of the field is 0.
    pub fn bit_is_clear(&self) -> (b: bool)
        ensures
            b == !self.bits,
    {
        !self.bits
    }

    /// Whether the bit of the field is 1.
    pub fn bit_is_set(&self) -> (b: bool)
        ensures
            b == self.bits,
    {
        self.bits
    }

    /// The value that the bit of the field stands for: `DISABLE` for 0, `ENABLE` for 1.
    pub fn variant(&self) -> (v: ETBEI_A)
        ensures
            v == (if self.bits {
                ETBEI_A::ENABLE
            } else {
                ETBEI_A::DISABLE
            }),
    {
        match self.bits {
            false => ETBEI_A::DISABLE,
            true => ETBEI_A::ENABLE,
        }
    }

    /// Whether the field holds `DISABLE`.
    pub fn is_disable(&self) -> (b: bool)
        ensures
            b == (self.bits == ETBEI_A::DISABLE.spec_bit()),
    {
        self.bits == false
    }

    /// Whether the field holds `ENABLE`.
    pub fn is_enable(&self) -> (b: bool)
        ensures
            b == (self.bits == ETBEI_A::ENABLE.spec_bit()),
    {
        self.bits == true
    }
}

/// Enable Transmit Holding Register Empty Interrupt: the field `etbei` of a value to be written, which is bit 1.
pub struct ETBEI_W<'a> {
    pub w: &'a mut W,
}

impl<'a> ETBEI_W<'a> {
    /// Sets the bit of the field to `value` and leaves every other bit
    /// of the register value as it is.
    pub fn bit(self, value: bool) -> (w: &'a mut W)
        ensures
            w.bits == with_bit(old(self.w).bits, 1, value),
            *final(self.w) == *final(w),
    {
        self.w.bits = write_bit(self.w.bits, 1, value);
        self.w
    }

    /// Sets the bit of the field to 1.
    pub fn set_bit(self) -> (w: &'a mut W)
        ensures
            w.bits == with_bit(old(self.w).bits, 1, true),
            *final(self.w) == *final(w),
    {
        self.bit(true)
    }

    /// Sets the bit of the field to 0.
    pub fn clear_bit(self) -> (w: &'a mut W)
        ensures
            w.bits == with_bit(old(self.w).bits, 1, false),
            *final(self.w) == *final(w),
    {
        self.bit(false)
    }

    /// Sets the field to the value `variant`.
    pub fn variant(self, variant: ETBEI_A) -> (w: &'a mut W)
        ensures
            w.bits == with_bit(old(self.w).bits, 1, variant.spec_bit()),
            *final(self.w) == *final(w),
    {
        self.bit(variant.bit())
    }

    /// Sets the field to `DISABLE`.
    pub fn disable(self) -> (w: &'a mut W)
        ensures
            w.bits == with_bit(old(self.w).bits, 1, ETBEI_A::DISABLE.spec_bit()),
            *final(self.w) == *final(w),
    {
        self.variant(ETBEI_A::DISABLE)
    }

    /// Sets the field to `ENABLE`.
    pub fn enable(self) -> (w: &'a mut W)
        ensures
            w.bits == with_bit(old(self.w).bits, 1, ETBEI_A::ENABLE.spec_bit()),
            *final(self.w) == *final(w),
    {
        self.variant(ETBEI_A::ENABLE)
    }
}

/// Enable Receiver Line Status Interrupt: the values of the field `elsi`.
#[derive(Clone, Copy, Debug, PartialEq, Eq, Structural)]
pub enum ELSI_A {
    DISABLE,
    ENABLE,
}

impl ELSI_A {
    /// The bit that stands for the value.
    pub open spec fn spec_bit(self) -> bool {
        match self {
            ELSI_A::DISABLE => false,
            ELSI_A::ENABLE => true,
        }
    }

    /// The bit that stands for the value.
    #[verifier::when_used_as_spec(spec_bit)]
    pub fn bit(self) -> (b: bool)
        ensures
            b == self.spec_bit(),
    {
        match self {
            ELSI_A::DISABLE => false,
            ELSI_A::ENABLE => true,
        }
    }
}

/// Enable Receiver Line Status Interrupt: the field `elsi` of a value read, which is bit 2.
#[derive(Clone, Copy, Debug, PartialEq, Eq, Structural)]
pub struct ELSI_R {
    pub bits: bool,
}

impl ELSI_R {
    /// The field with the bit `bits`.
    pub fn new(bits: bool) -> (r: ELSI_R)
        ensures
            r.bits == bits,
    {
        ELSI_R { bits }
    }

    /// The bit of the field.
    pub fn bit(&self) -> (b: bool)
        ensures
            b == self.bits,
    {
        self.bits
    }

    /// Whether the bit of the field is 0.
    pub fn bit_is_clear(&self) -> (b: bool)
        ensures
            b == !self.bits,
    {
        !self.bits
    }

    /// Whether the bit of the field is 1.
    pub fn bit_is_set(&self) -> (b: bool)
        ensures
            b == self.bits,
    {
        self.bits
    }

    /// The value that the bit of the field stands for: `DISABLE` for 0, `ENABLE` for 1.
    pub fn variant(&self) -> (v: ELSI_A)
        ensures
            v == (if self.bits {
                ELSI_A::ENABLE
            } else {
                ELSI_A::DISABLE
            }),
    {
        match self.bits {
            false => ELSI_A::DISABLE,
            true => ELSI_A::ENABLE,
        }
    }

    /// Whether the field holds `DISABLE`.
    pub fn is_disable(&self) -> (b: bool)
        ensures
            b == (self.bits == ELSI_A::DISABLE.spec_bit()),
    {
        self.bits == false
    }

    /// Whether the field holds `ENABLE`.
    pub fn is_enable(&self) -> (b: bool)
        ensures
            b == (self.bits == ELSI_A::ENABLE.spec_bit()),
    {
        self.bits == true
    }
}

/// Enable Receiver Line Status Interrupt: the field `elsi` of a value to be written, which is bit 2.
pub struct ELSI_W<'a> {
    pub w: &'a mut W,
}

impl<'a> ELSI_W<'a> {
    /// Sets the bit of the field to `value` and leaves every other bit
    /// of the register value as it is.
    pub fn bit(self, value: bool) -> (w: &'a mut W)
        ensures
            w.bits == with_bit(old(self.w).bits, 2, value),
            *final(self.w) == *final(w),
    {
        self.w.bits = write_bit(self.w.bits, 2, value);
        self.w
    }

    /// Sets the bit of the field to 1.
    pub fn set_bit(self) -> (w: &'a mut W)
        ensures
            w.bits == with_bit(old(self.w).bits, 2, true),
            *final(self.w) == *final(w),
    {
        self.bit(true)
    }

    /// Sets the bit of the field to 0.
    pub fn clear_bit(self) -> (w: &'a mut W)
        ensures
            w.bits == with_bit(old(self.w).bits, 2, false),
            *final(self.w) == *final(w),
    {
        self.bit(false)
    }

    /// Sets the field to the value `variant`.
    pub fn variant(self, variant: ELSI_A) -> (w: &'a mut W)
        ensures
            w.bits == with_bit(old(self.w).bits, 2, variant.spec_bit()),
            *final(self.w) == *final(w),
    {
        self.bit(variant.bit())
    }

    /// Sets the field to `DISABLE`.
    pub fn disable(self) -> (w: &'a mut W)
        ensures
            w.bits == with_bit(old(self.w).bits, 2, ELSI_A::DISABLE.spec_bit()),
            *final(self.w) == *final(w),
    {
        self.variant(ELSI_A::DISABLE)
    }

    /// Sets the field to `ENABLE`.
    pub fn enable(self) -> (w: &'a mut W)
        ensures
            w.bits == with_bit(old(self.w).bits, 2, ELSI_A::ENABLE.spec_bit()),
            *final(self.w) == *final(w),
    {
        self.variant(ELSI_A::ENABLE)
    }
}

/// Enable Modem Status Interrupt: the values of the field `edssi`.
#[derive(Clone, Copy, Debug, PartialEq, Eq, Structural)]
pub enum EDSSI_A {
    DISABLE,
    ENABLE,
}

impl EDSSI_A {
    /// The bit that stands for the value.
    pub open spec fn spec_bit(self) -> bool {
        match self {
            EDSSI_A::DISABLE => false,
            EDSSI_A::ENABLE => true,
        }
    }

    /// The bit that stands for the value.
    #[verifier::when_used_as_spec(spec_bit)]
    pub fn bit(self) -> (b: bool)
        ensures
            b == self.spec_bit(),
    {
        match self {
            EDSSI_A::DISABLE => false,
            EDSSI_A::ENABLE => true,
        }
    }
}

/// Enable Modem Status Interrupt: the field `edssi` of a value read, which is bit 3.
#[derive(Clone, Copy, Debug, PartialEq, Eq, Structural)]
pub struct EDSSI_R {
    pub bits: bool,
}

impl EDSSI_R {
    /// The field with the bit `bits`.
    pub fn new(bits: bool) -> (r: EDSSI_R)
        ensures
            r.bits == bits,
    {
        EDSSI_R { bits }
    }

    /// The bit of the field.
    pub fn bit(&self) -> (b: bool)
        ensures
            b == self.bits,
    {
        self.bits
    }

    /// Whether the bit of the field is 0.
    pub fn bit_is_clear(&self) -> (b: bool)
        ensures
            b == !self.bits,
    {
        !self.bits
    }

    /// Whether the bit of the field is 1.
    pub fn bit_is_set(&self) -> (b: bool)
        ensures
            b == self.bits,
    {
        self.bits
    }

    /// The value that the bit of the field stands for: `DISABLE` for 0, `ENABLE` for 1.
    pub fn variant(&self) -> (v: EDSSI_A)
        ensures
            v == (if self.bits {
                EDSSI_A::ENABLE
            } else {
                EDSSI_A::DISABLE
            }),
    {
        match self.bits {
            false => EDSSI_A::DISABLE,
            true => EDSSI_A::ENABLE,
        }
    }

    /// Whether the field holds `DISABLE`.
    pub fn is_disable(&self) -> (b: bool)
        ensures
            b == (self.bits == EDSSI_A::DISABLE.spec_bit()),
    {
        self.bits == false
    }

    /// Whether the field holds `ENABLE`.
    pub fn is_enable(&self) -> (b: bool)
        ensures
            b == (self.bits == EDSSI_A::ENABLE.spec_bit()),
    {
        self.bits == true
    }
}

/// Enable Modem Status Interrupt: the field `edssi` of a value to be written, which is bit 3.
pub struct EDSSI_W<'a> {
    pub w: &'a mut W,
}

impl<'a> EDSSI_W<'a> {
    /// Sets the bit of the field to `value` and leaves every other bit
    /// of the register value as it is.
    pub fn bit(self, value: bool) -> (w: &'a mut W)
        ensures
            w.bits == with_bit(old(self.w).bits, 3, value),
            *final(self.w) == *final(w),
    {
        self.w.bits = write_bit(self.w.bits, 3, value);
        self.w
    }

    /// Sets the bit of the field to 1.
    pub fn set_bit(self) -> (w: &'a mut W)
        ensures
            w.bits == with_bit(old(self.w).bits, 3, true),
            *final(self.w) == *final(w),
    {
        self.bit(true)
    }

    /// Sets the bit of the field to 0.
    pub fn clear_bit(self) -> (w: &'a mut W)
        ensures
            w.bits == with_bit(old(self.w).bits, 3, false),
            *final(self.w) == *final(w),
    {
        self.bit(false)
    }

    /// Sets the field to the value `variant`.
    pub fn variant(self, variant: EDSSI_A) -> (w: &'a mut W)
        ensures
            w.bits == with_bit(old(self.w).bits, 3, variant.spec_bit()),
            *final(self.w) == *final(w),
    {
        self.bit(variant.bit())
    }

    /// Sets the field to `DISABLE`.
    pub fn disable(self) -> (w: &'a mut W)
        ensures
            w.bits == with_bit(old(self.w).bits, 3, EDSSI_A::DISABLE.spec_bit()),
            *final(self.w) == *final(w),
    {
        self.variant(EDSSI_A::DISABLE)
    }

    /// Sets the field to `ENABLE`.
    pub fn enable(self) -> (w: &'a mut W)
        ensures
            w.bits == with_bit(old(self.w).bits, 3, EDSSI_A::ENABLE.spec_bit()),
            *final(self.w) == *final(w),
    {
        self.variant(EDSSI_A::ENABLE)
    }
}

impl R {
    /// The value read that has the bits `bits`.
    pub fn new(bits: u32) -> (r: R)
        ensures
            r.bits == bits,
    {
        R { bits }
    }

    /// The bits of the value.
    pub fn bits(&self) -> (bits: u32)
        ensures
            bits == self.bits,
    {
        self.bits
    }

    /// Bit 0: Enable Received Data Available Interrupt.
    pub fn erbfi(&self) -> (field: ERBFI_R)
        ensures
            field.bits == bit_of(self.bits, 0),
    {
        ERBFI_R::new(read_bit(self.bits, 0))
    }

    /// Bit 1: Enable Transmit Holding Register Empty Interrupt.
    pub fn etbei(&self) -> (field: ETBEI_R)
        ensures
            field.bits == bit_of(self.bits, 1),
    {
        ETBEI_R::new(read_bit(self.bits, 1))
    }

    /// Bit 2: Enable Receiver Line Status Interrupt.
    pub fn elsi(&self) -> (field: ELSI_R)
        ensures
            field.bits == bit_of(self.bits, 2),
    {
        ELSI_R::new(read_bit(self.bits, 2))
    }

    /// Bit 3: Enable Modem Status Interrupt.
    pub fn edssi(&self) -> (field: EDSSI_R)
        ensures
            field.bits == bit_of(self.bits, 3),
    {
        EDSSI_R::new(read_bit(self.bits, 3))
    }
}

impl W {
    /// The value to be written that a reset leaves in the register.
    pub fn new() -> (w: W)
        ensures
            w.bits == 0,
    {
        W { bits: 0 }
    }

    /// The bits of the value as they stand.
    pub fn value(&self) -> (bits: u32)
        ensures
            bits == self.bits,
    {
        self.bits
    }

    /// Bit 0: Enable Received Data Available Interrupt.
    pub fn erbfi(&mut self) -> (field: ERBFI_W<'_>)
        ensures
            *field.w == *old(self),
            *final(self) == *final(field.w),
    {
        ERBFI_W { w: self }
    }

    /// Bit 1: Enable Transmit Holding Register Empty Interrupt.
    pub fn etbei(&mut self) -> (field: ETBEI_W<'_>)
        ensures
            *field.w == *old(self),
            *final(self) == *final(field.w),
    {
        ETBEI_W { w: self }
    }

    /// Bit 2: Enable Receiver Line Status Interrupt.
    pub fn elsi(&mut self) -> (field: ELSI_W<'_>)
        ensures
            *field.w == *old(self),
            *final(self) == *final(field.w),
    {
        ELSI_W { w: self }
    }

    /// Bit 3: Enable Modem Status Interrupt.
    pub fn edssi(&mut self) -> (field: EDSSI_W<'_>)
        ensures
            *field.w == *old(self),
            *final(self) == *final(field.w),
    {
        EDSSI_W { w: self }
    }
}

} // verus!

use vstd::prelude::*;
use crate::pac::generic::{bit_of, read_bit, with_bit, write_bit};

verus! {

/// The line status register of the serial port.
#[derive(Clone, Copy, Debug, PartialEq, Eq, Structural)]
pub struct LSR_SPEC;

impl LSR_SPEC {
    /// The value of the register after a reset.
    pub fn reset_value() -> (bits: u32)
        ensures
            bits == 0,
    {
        0
    }
}

/// A value read from the line status register.
#[derive(Clone, Copy, Debug, PartialEq, Eq, Structural)]
pub struct R {
    pub bits: u32,
}

/// A value to be written to the line status register.
#[derive(Debug, PartialEq, Eq, Structural)]
pub struct W {
    pub bits: u32,
}

/// Data Ready: the values of the field `dr`.
#[derive(Clone, Copy, Debug, PartialEq, Eq, Structural)]
pub enum DR_A {
    READY,
}

impl DR_A {
    /// The bit that stands for the value.
    pub open spec fn spec_bit(self) -> bool {
        match self {
            DR_A::READY => true,
        }
    }

    /// The bit that stands for the value.
    #[verifier::when_used_as_spec(spec_bit)]
    pub fn bit(self) -> (b: bool)
        ensures
            b == self.spec_bit(),
    {
        match self {
            DR_A::READY => true,
        }
    }
}

/// Data Ready: the field `dr` of a value read, which is bit 0.
#[derive(Clone, Copy, Debug, PartialEq, Eq, Structural)]
pub struct DR_R {
    pub bits: bool,
}

impl DR_R {
    /// The field with the bit `bits`.
    pub fn new(bits: bool) -> (r: DR_R)
        ensures
            r.bits == bits,
    {
        DR_R { bits }
    }

    /// The bit of the field.
    pub fn bit(&self) -> (b: bool)
        ensures
            b == self.bits,
    {
        self.bits
    }

    /// Whether the bit of the field is 0.
    pub fn bit_is_clear(&self) -> (b: bool)
        ensures
            b == !self.bits,
    {
        !self.bits
    }

    /// Whether the bit of the field is 1.
    pub fn bit_is_set(&self) -> (b: bool)
        ensures
            b == self.bits,
    {
        self.bits
    }

    /// The value that the bit of the field stands for: `READY` for 1, none for 0.
    pub fn variant(&self) -> (v: Option<DR_A>)
        ensures
            v == (if self.bits {
                Some(DR_A::READY)
            } else {
                None
            }),
    {
        match self.bits {
            true => Some(DR_A::READY),
            _ => None,
        }
    }

    /// Whether the field holds `READY`.
    pub fn is_ready(&self) -> (b: bool)
        ensures
            b == (self.bits == DR_A::READY.spec_bit()),
    {
        self.bits == true
    }
}

/// Data Ready: the field `dr` of a value to be written, which is bit 0.
pub struct DR_W<'a> {
    pub w: &'a mut W,
}

impl<'a> DR_W<'a> {
    /// Sets the bit of the field to `value` and leaves every other bit
    /// of the register value as it is.
    pub fn bit(self, value: bool) -> (w: &'a mut W)
        ensures
            w.bits == with_bit(old(self.w).bits, 0, value),
            *final(self.w) == *final(w),
    {
        self.w.bits = write_bit(self.w.bits, 0, value);
        self.w
    }

    /// Sets the bit of the field to 1.
    pub fn set_bit(self) -> (w: &'a mut W)
        ensures
            w.bits == with_bit(old(self.w).bits, 0, true),
            *final(self.w) == *final(w),
    {
        self.bit(true)
    }

    /// Sets the bit of the field to 0.
    pub fn clear_bit(self) -> (w: &'a mut W)
        ensures
            w.bits == with_bit(old(self.w).bits, 0, false),
            *final(self.w) == *final(w),
    {
        self.bit(false)
    }

    /// Sets the field to the value `variant`.
    pub fn variant(self, variant: DR_A) -> (w: &'a mut W)
        ensures
            w.bits == with_bit(old(self.w).bits, 0, variant.spec_bit()),
            *final(self.w) == *final(w),
    {
        self.bit(variant.bit())
    }

    /// Sets the field to `READY`.
    pub fn ready(self) -> (w: &'a mut W)
        ensures
            w.bits == with_bit(old(self.w).bits, 0, DR_A::READY.spec_bit()),
            *final(self.w) == *final(w),
    {
        self.variant(DR_A::READY)
    }
}

/// Overrun Error: the values of the field `oe`.
#[derive(Clone, Copy, Debug, PartialEq, Eq, Structural)]
pub enum OE_A {
    ERROR,
}

impl OE_A {
    /// The bit that stands for the value.
    pub open spec fn spec_bit(self) -> bool {
        match self {
            OE_A::ERROR => true,
        }
    }

    /// The bit that stands for the value.
    #[verifier::when_used_as_spec(spec_bit)]
    pub fn bit(self) -> (b: bool)
        ensures
            b == self.spec_bit(),
    {
        match self {
            OE_A::ERROR => true,
        }
    }
}

/// Overrun Error: the field `oe` of a value read, which is bit 1.
#[derive(Clone, Copy, Debug, PartialEq, Eq, Structural)]
pub struct OE_R {
    pub bits: bool,
}

impl OE_R {
    /// The field with the bit `bits`.
    pub fn new(bits: bool) -> (r: OE_R)
        ensures
            r.bits == bits,
    {
        OE_R { bits }
    }

    /// The bit of the field.
    pub fn bit(&self) -> (b: bool)
        ensures
            b == self.bits,
    {
        self.bits
    }

    /// Whether the bit of the field is 0.
    pub fn bit_is_clear(&self) -> (b: bool)
        ensures
            b == !self.bits,
    {
        !self.bits
    }

    /// Whether the bit of the field is 1.
    pub fn bit_is_set(&self) -> (b: bool)
        ensures
            b == self.bits,
    {
        self.bits
    }

    /// The value that the bit of the field stands for: `ERROR` for 1, none for 0.
    pub fn variant(&self) -> (v: Option<OE_A>)
        ensures
            v == (if self.bits {
                Some(OE_A::ERROR)
            } else {
                None
            }),
    {
        match self.bits {
            true => Some(OE_A::ERROR),
            _ => None,
        }
    }

    /// Whether the field holds `ERROR`.
    pub fn is_error(&self) -> (b: bool)
        ensures
            b == (self.bits == OE_A::ERROR.spec_bit()),
    {
        self.bits == true
    }
}

/// Overrun Error: the field `oe` of a value to be written, which is bit 1.
pub struct OE_W<'a> {
    pub w: &'a mut W,
}

impl<'a> OE_W<'a> {
    /// Sets the bit of the field to `value` and leaves every other bit
    /// of the register value as it is.
    pub fn bit(self, value: bool) -> (w: &'a mut W)
        ensures
            w.bits == with_bit(old(self.w).bits, 1, value),
            *final(self.w) == *final(w),
    {
        self.w.bits = write_bit(self.w.bits, 1, value);
        self.w
    }

    /// Sets the bit of the field to 1.
    pub fn set_bit(self) -> (w: &'a mut W)
        ensures
            w.bits == with_bit(old(self.w).bits, 1, true),
            *final(self.w) == *final(w),
    {
        self.bit(true)
    }

    /// Sets the bit of the field to 0.
    pub fn clear_bit(self) -> (w: &'a mut W)
        ensures
            w.bits == with_bit(old(self.w).bits, 1, false),
            *final(self.w) == *final(w),
    {
        self.bit(false)
    }

    /// Sets the field to the value `variant`.
    pub fn variant(self, variant: OE_A) -> (w: &'a mut W)
        ensures
            w.bits == with_bit(old(self.w).bits, 1, variant.spec_bit()),
            *final(self.w) == *final(w),
    {
        self.bit(variant.bit())
    }

    /// Sets the field to `ERROR`.
    pub fn error(self) -> (w: &'a mut W)
        ensures
            w.bits == with_bit(old(self.w).bits, 1, OE_A::ERROR.spec_bit()),
            *final(self.w) == *final(w),
    {
        self.variant(OE_A::ERROR)
    }
}

/// Parity Error: the values of the field `pe`.
#[derive(Clone, Copy, Debug, PartialEq, Eq, Structural)]
pub enum PE_A {
    ERROR,
}

impl PE_A {
    /// The bit that stands for the value.
    pub open spec fn spec_bit(self) -> bool {
        match self {
            PE_A::ERROR => true,
        }
    }

    /// The bit that stands for the value.
    #[verifier::when_used_as_spec(spec_bit)]
    pub fn bit(self) -> (b: bool)
        ensures
            b == self.spec_bit(),
    {
        match self {
            PE_A::ERROR => true,
        }
    }
}

/// Parity Error: the field `pe` of a value read, which is bit 2.
#[derive(Clone, Copy, Debug, PartialEq, Eq, Structural)]
pub struct PE_R {
    pub bits: bool,
}

impl PE_R {
    /// The field with the bit `bits`.
    pub fn new(bits: bool) -> (r: PE_R)
        ensures
            r.bits == bits,
    {
        PE_R { bits }
    }

    /// The bit of the field.
    pub fn bit(&self) -> (b: bool)
        ensures
            b == self.bits,
    {
        self.bits
    }

    /// Whether the bit of the field is 0.
    pub fn bit_is_clear(&self) -> (b: bool)
        ensures
            b == !self.bits,
    {
        !self.bits
    }

    /// Whether the bit of the field is 1.
    pub fn bit_is_set(&self) -> (b: bool)
        ensures
            b == self.bits,
    {
        self.bits
    }

    /// The value that the bit of the field stands for: `ERROR` for 1, none for 0.
    pub fn variant(&self) -> (v: Option<PE_A>)
        ensures
            v == (if self.bits {
                Some(PE_A::ERROR)
            } else {
                None
            }),
    {
        match self.bits {
            true => Some(PE_A::ERROR),
            _ => None,
        }
    }

    /// Whether the field holds `ERROR`.
    pub fn is_error(&self) -> (b: bool)
        ensures
            b == (self.bits == PE_A::ERROR.spec_bit()),
    {
        self.bits == true
    }
}

/// Parity Error: the field `pe` of a value to be written, which is bit 2.
pub struct PE_W<'a> {
    pub w: &'a mut W,
}

impl<'a> PE_W<'a> {
    /// Sets the bit of the field to `value` and leaves every other bit
    /// of the register value as it is.
    pub fn bit(self, value: bool) -> (w: &'a mut W)
        ensures
            w.bits == with_bit(old(self.w).bits, 2, value),
            *final(self.w) == *final(w),
    {
        self.w.bits = write_bit(self.w.bits, 2, value);
        self.w
    }

    /// Sets the bit of the field to 1.
    pub fn set_bit(self) -> (w: &'a mut W)
        ensures
            w.bits == with_bit(old(self.w).bits, 2, true),
            *final(self.w) == *final(w),
    {
        self.bit(true)
    }

    /// Sets the bit of the field to 0.
    pub fn clear_bit(self) -> (w: &'a mut W)
        ensures
            w.bits == with_bit(old(self.w).bits, 2, false),
            *final(self.w) == *final(w),
    {
        self.bit(false)
    }

    /// Sets the field to the value `variant`.
    pub fn variant(self, variant: PE_A) -> (w: &'a mut W)
        ensures
            w.bits == with_bit(old(self.w).bits, 2, variant.spec_bit()),
            *final(self.w) == *final(w),
    {
        self.bit(variant.bit())
    }

    /// Sets the field to `ERROR`.
    pub fn error(self) -> (w: &'a mut W)
        ensures
            w.bits == with_bit(old(self.w).bits, 2, PE_A::ERROR.spec_bit()),
            *final(self.w) == *final(w),
    {
        self.variant(PE_A::ERROR)
    }
}

/// Framing Error: the values of the field `fe`.
#[derive(Clone, Copy, Debug, PartialEq, Eq, Structural)]
pub enum FE_A {
    ERROR,
}

impl FE_A {
    /// The bit that stands for the value.
    pub open spec fn spec_bit(self) -> bool {
        match self {
            FE_A::ERROR => true,
        }
    }

    /// The bit that stands for the value.
    #[verifier::when_used_as_spec(spec_bit)]
    pub fn bit(self) -> (b: bool)
        ensures
            b == self.spec_bit(),
    {
        match self {
            FE_A::ERROR => true,
        }
    }
}

/// Framing Error: the field `fe` of a value read, which is bit 3.
#[derive(Clone, Copy, Debug, PartialEq, Eq, Structural)]
pub struct FE_R {
    pub bits: bool,
}

impl FE_R {
    /// The field with the bit `bits`.
    pub fn new(bits: bool) -> (r: FE_R)
        ensures
            r.bits == bits,
    {
        FE_R { bits }
    }

    /// The bit of the field.
    pub fn bit(&self) -> (b: bool)
        ensures
            b == self.bits,
    {
        self.bits
    }

    /// Whether the bit of the field is 0.
    pub fn bit_is_clear(&self) -> (b: bool)
        ensures
            b == !self.bits,
    {
        !self.bits
    }

    /// Whether the bit of the field is 1.
    pub fn bit_is_set(&self) -> (b: bool)
        ensures
            b == self.bits,
    {
        self.bits
    }

    /// The value that the bit of the field stands for: `ERROR` for 1, none for 0.
    pub fn variant(&self) -> (v: Option<FE_A>)
        ensures
            v == (if self.bits {
                Some(FE_A::ERROR)
            } else {
                None
            }),
    {
        match self.bits {
            true => Some(FE_A::ERROR),
            _ => None,
        }
    }

    /// Whether the field holds `ERROR`.
    pub fn is_error(&self) -> (b: bool)
        ensures
            b == (self.bits == FE_A::ERROR.spec_bit()),
    {
        self.bits == true
    }
}

/// Framing Error: the field `fe` of a value to be written, which is bit 3.
pub struct FE_W<'a> {
    pub w: &'a mut W,
}

impl<'a> FE_W<'a> {
    /// Sets the bit of the field to `value` and leaves every other bit
    /// of the register value as it is.
    pub fn bit(self, value: bool) -> (w: &'a mut W)
        ensures
            w.bits == with_bit(old(self.w).bits, 3, value),
            *final(self.w) == *final(w),
    {
        self.w.bits = write_bit(self.w.bits, 3, value);
        self.w
    }

    /// Sets the bit of the field to 1.
    pub fn set_bit(self) -> (w: &'a mut W)
        ensures
            w.bits == with_bit(old(self.w).bits, 3, true),
            *final(self.w) == *final(w),
    {
        self.bit(true)
    }

    /// Sets the bit of the field to 0.
    pub fn clear_bit(self) -> (w: &'a mut W)
        ensures
            w.bits == with_bit(old(self.w).bits, 3, false),
            *final(self.w) == *final(w),
    {
        self.bit(false)
    }

    /// Sets the field to the value `variant`.
    pub fn variant(self, variant: FE_A) -> (w: &'a mut W)
        ensures
            w.bits == with_bit(old(self.w).bits, 3, variant.spec_bit()),
            *final(self.w) == *final(w),
    {
        self.bit(variant.bit())
    }

    /// Sets the field to `ERROR`.
    pub fn error(self) -> (w: &'a mut W)
        ensures
            w.bits == with_bit(old(self.w).bits, 3, FE_A::ERROR.spec_bit()),
            *final(self.w) == *final(w),
    {
        self.variant(FE_A::ERROR)
    }
}

/// Break Interrupt: the field `bi` of a value read, which is bit 4.
#[derive(Clone, Copy, Debug, PartialEq, Eq, Structural)]
pub struct BI_R {
    pub bits: bool,
}

impl BI_R {
    /// The field with the bit `bits`.
    pub fn new(bits: bool) -> (r: BI_R)
        ensures
            r.bits == bits,
    {
        BI_R { bits }
    }

    /// The bit of the field.
    pub fn bit(&self) -> (b: bool)
        ensures
            b == self.bits,
    {
        self.bits
    }

    /// Whether the bit of the field is 0.
    pub fn bit_is_clear(&self) -> (b: bool)
        ensures
            b == !self.bits,
    {
        !self.bits
    }

    /// Whether the bit of the field is 1.
    pub fn bit_is_set(&self) -> (b: bool)
        ensures
            b == self.bits,
    {
        self.bits
    }
}

/// Break Interrupt: the field `bi` of a value to be written, which is bit 4.
pub struct BI_W<'a> {
    pub w: &'a mut W,
}

impl<'a> BI_W<'a> {
    /// Sets the bit of the field to `value` and leaves every other bit
    /// of the register value as it is.
    pub fn bit(self, value: bool) -> (w: &'a mut W)
        ensures
            w.bits == with_bit(old(self.w).bits, 4, value),
            *final(self.w) == *final(w),
    {
        self.w.bits = write_bit(self.w.bits, 4, value);
        self.w
    }

    /// Sets the bit of the field to 1.
    pub fn set_bit(self) -> (w: &'a mut W)
        ensures
            w.bits == with_bit(old(self.w).bits, 4, true),
            *final(self.w) == *final(w),
    {
        self.bit(true)
    }

    /// Sets the bit of the field to 0.
    pub fn clear_bit(self) -> (w: &'a mut W)
        ensures
            w.bits == with_bit(old(self.w).bits, 4, false),
            *final(self.w) == *final(w),
    {
        self.bit(false)
    }
}

/// TX Holding Register Empty: the values of the field `thre`.
#[derive(Clone, Copy, Debug, PartialEq, Eq, Structural)]
pub enum THRE_A {
    EMPTY,
}

impl THRE_A {
    /// The bit that stands for the value.
    pub open spec fn spec_bit(self) -> bool {
        match self {
            THRE_A::EMPTY => true,
        }
    }

    /// The bit that stands for the value.
    #[verifier::when_used_as_spec(spec_bit)]
    pub fn bit(self) -> (b: bool)
        ensures
            b == self.spec_bit(),
    {
        match self {
            THRE_A::EMPTY => true,
        }
    }
}

/// TX Holding Register Empty: the field `thre` of a value read, which is bit 5.
#[derive(Clone, Copy, Debug, PartialEq, Eq, Structural)]
pub struct THRE_R {
    pub bits: bool,
}

impl THRE_R {
    /// The field with the bit `bits`.
    pub fn new(bits: bool) -> (r: THRE_R)
        ensures
            r.bits == bits,
    {
        THRE_R { bits }
    }

    /// The bit of the field.
    pub fn bit(&self) -> (b: bool)
        ensures
            b == self.bits,
    {
        self.bits
    }

    /// Whether the bit of the field is 0.
    pub fn bit_is_clear(&self) -> (b: bool)
        ensures
            b == !self.bits,
    {
        !self.bits
    }

    /// Whether the bit of the field is 1.
    pub fn bit_is_set(&self) -> (b: bool)
        ensures
            b == self.bits,
    {
        self.bits
    }

    /// The value that the bit of the field stands for: `EMPTY` for 1, none for 0.
    pub fn variant(&self) -> (v: Option<THRE_A>)
        ensures
            v == (if self.bits {
                Some(THRE_A::EMPTY)
            } else {
                None
            }),
    {
        match self.bits {
            true => Some(THRE_A::EMPTY),
            _ => None,
        }
    }

    /// Whether the field holds `EMPTY`.
    pub fn is_empty(&self) -> (b: bool)
        ensures
            b == (self.bits == THRE_A::EMPTY.spec_bit()),
    {
        self.bits == true
    }
}

/// TX Holding Register Empty: the field `thre` of a value to be written, which is bit 5.
pub struct THRE_W<'a> {
    pub w: &'a mut W,
}

impl<'a> THRE_W<'a> {
    /// Sets the bit of the field to `value` and leaves every other bit
    /// of the register value as it is.
    pub fn bit(self, value: bool) -> (w: &'a mut W)
        ensures
            w.bits == with_bit(old(self.w).bits, 5, value),
            *final(self.w) == *final(w),
    {
        self.w.bits = write_bit(self.w.bits, 5, value);
        self.w
    }

    /// Sets the bit of the field to 1.
    pub fn set_bit(self) -> (w: &'a mut W)
        ensures
            w.bits == with_bit(old(self.w).bits, 5, true),
            *final(self.w) == *final(w),
    {
        self.bit(true)
    }

    /// Sets the bit of the field to 0.
    pub fn clear_bit(self) -> (w: &'a mut W)
        ensures
            w.bits == with_bit(old(self.w).bits, 5, false),
            *final(self.w) == *final(w),
    {
        self.bit(false)
    }

    /// Sets the field to the value `variant`.
    pub fn variant(self, variant: THRE_A) -> (w: &'a mut W)
        ensures
            w.bits == with_bit(old(self.w).bits, 5, variant.spec_bit()),
            *final(self.w) == *final(w),
    {
        self.bit(variant.bit())
    }

    /// Sets the field to `EMPTY`.
    pub fn empty(self) -> (w: &'a mut W)
        ensures
            w.bits == with_bit(old(self.w).bits, 5, THRE_A::EMPTY.spec_bit()),
            *final(self.w) == *final(w),
    {
        self.variant(THRE_A::EMPTY)
    }
}

/// Transmitter Empty: the values of the field `temt`.
#[derive(Clone, Copy, Debug, PartialEq, Eq, Structural)]
pub enum TEMT_A {
    EMPTY,
}

impl TEMT_A {
    /// The bit that stands for the value.
    pub open spec fn spec_bit(self) -> bool {
        match self {
            TEMT_A::EMPTY => true,
        }
    }

    /// The bit that stands for the value.
    #[verifier::when_used_as_spec(spec_bit)]
    pub fn bit(self) -> (b: bool)
        ensures
            b == self.spec_bit(),
    {
        match self {
            TEMT_A::EMPTY => true,
        }
    }
}

/// Transmitter Empty: the field `temt` of a value read, which is bit 6.
#[derive(Clone, Copy, Debug, PartialEq, Eq, Structural)]
pub struct TEMT_R {
    pub bits: bool,
}

impl TEMT_R {
    /// The field with the bit `bits`.
    pub fn new(bits: bool) -> (r: TEMT_R)
        ensures
            r.bits == bits,
    {
        TEMT_R { bits }
    }

    /// The bit of the field.
    pub fn bit(&self) -> (b: bool)
        ensures
            b == self.bits,
    {
        self.bits
    }

    /// Whether the bit of the field is 0.
    pub fn bit_is_clear(&self) -> (b: bool)
        ensures
            b == !self.bits,
    {
        !self.bits
    }

    /// Whether the bit of the field is 1.
    pub fn bit_is_set(&self) -> (b: bool)
        ensures
            b == self.bits,
    {
        self.bits
    }

    /// The value that the bit of the field stands for: `EMPTY` for 1, none for 0.
    pub fn variant(&self) -> (v: Option<TEMT_A>)
        ensures
            v == (if self.bits {
                Some(TEMT_A::EMPTY)
            } else {
                None
            }),
    {
        match self.bits {
            true => Some(TEMT_A::EMPTY),
            _ => None,
        }
    }

    /// Whether the field holds `EMPTY`.
    pub fn is_empty(&self) -> (b: bool)
        ensures
            b == (self.bits == TEMT_A::EMPTY.spec_bit()),
    {
        self.bits == true
    }
}

/// Transmitter Empty: the field `temt` of a value to be written, which is bit 6.
pub struct TEMT_W<'a> {
    pub w: &'a mut W,
}

impl<'a> TEMT_W<'a> {
    /// Sets the bit of the field to `value` and leaves every other bit
    /// of the register value as it is.
    pub fn bit(self, value: bool) -> (w: &'a mut W)
        ensures
            w.bits == with_bit(old(self.w).bits, 6, value),
            *final(self.w) == *final(w),
    {
        self.w.bits = write_bit(self.w.bits, 6, value);
        self.w
    }

    /// Sets the bit of the field to 1.
    pub fn set_bit(self) -> (w: &'a mut W)
        ensures
            w.bits == with_bit(old(self.w).bits, 6, true),
            *final(self.w) == *final(w),
    {
        self.bit(true)
    }

    /// Sets the bit of the field to 0.
    pub fn clear_bit(self) -> (w: &'a mut W)
        ensures
            w.bits == with_bit(old(self.w).bits, 6, false),
            *final(self.w) == *final(w),
    {
        self.bit(false)
    }

    /// Sets the field to the value `variant`.
    pub fn variant(self, variant: TEMT_A) -> (w: &'a mut W)
        ensures
            w.bits == with_bit(old(self.w).bits, 6, variant.spec_bit()),
            *final(self.w) == *final(w),
    {
        self.bit(variant.bit())
    }

    /// Sets the field to `EMPTY`.
    pub fn empty(self) -> (w: &'a mut W)
        ensures
            w.bits == with_bit(old(self.w).bits, 6, TEMT_A::EMPTY.spec_bit()),
            *final(self.w) == *final(w),
    {
        self.variant(TEMT_A::EMPTY)
    }
}

/// RX Data Error in FIFO: the values of the field `fifoerr`.
#[derive(Clone, Copy, Debug, PartialEq, Eq, Structural)]
pub enum FIFOERR_A {
    ERROR,
}

impl FIFOERR_A {
    /// The bit that stands for the value.
    pub open spec fn spec_bit(self) -> bool {
        match self {
            FIFOERR_A::ERROR => true,
        }
    }

    /// The bit that stands for the value.
    #[verifier::when_used_as_spec(spec_bit)]
    pub fn bit(self) -> (b: bool)
        ensures
            b == self.spec_bit(),
    {
        match self {
            FIFOERR_A::ERROR => true,
        }
    }
}

/// RX Data Error in FIFO: the field `fifoerr` of a value read, which is bit 7.
#[derive(Clone, Copy, Debug, PartialEq, Eq, Structural)]
pub struct FIFOERR_R {
    pub bits: bool,
}

impl FIFOERR_R {
    /// The field with the bit `bits`.
    pub fn new(bits: bool) -> (r: FIFOERR_R)
        ensures
            r.bits == bits,
    {
        FIFOERR_R { bits }
    }

    /// The bit of the field.
    pub fn bit(&self) -> (b: bool)
        ensures
            b == self.bits,
    {
        self.bits
    }

    /// Whether the bit of the field is 0.
    pub fn bit_is_clear(&self) -> (b: bool)
        ensures
            b == !self.bits,
    {
        !self.bits
    }

    /// Whether the bit of the field is 1.
    pub fn bit_is_set(&self) -> (b: bool)
        ensures
            b == self.bits,
    {
        self.bits
    }

    /// The value that the bit of the field stands for: `ERROR` for 1, none for 0.
    pub fn variant(&self) -> (v: Option<FIFOERR_A>)
        ensures
            v == (if self.bits {
                Some(FIFOERR_A::ERROR)
            } else {
                None
            }),
    {
        match self.bits {
            true => Some(FIFOERR_A::ERROR),
            _ => None,
        }
    }

    /// Whether the field holds `ERROR`.
    pub fn is_error(&self) -> (b: bool)
        ensures
            b == (self.bits == FIFOERR_A::ERROR.spec_bit()),
    {
        self.bits == true
    }
}

/// RX Data Error in FIFO: the field `fifoerr` of a value to be written, which is bit 7.
pub struct FIFOERR_W<'a> {
    pub w: &'a mut W,
}

impl<'a> FIFOERR_W<'a> {
    /// Sets the bit of the field to `value` and leaves every other bit
    /// of the register value as it is.
    pub fn bit(self, value: bool) -> (w: &'a mut W)
        ensures
            w.bits == with_bit(old(self.w).bits, 7, value),
            *final(self.w) == *final(w),
    {
        self.w.bits = write_bit(self.w.bits, 7, value);
        self.w
    }

    /// Sets the bit of the field to 1.
    pub fn set_bit(self) -> (w: &'a mut W)
        ensures
            w.bits == with_bit(old(self.w).bits, 7, true),
            *final(self.w) == *final(w),
    {
        self.bit(true)
    }

    /// Sets the bit of the field to 0.
    pub fn clear_bit(self) -> (w: &'a mut W)
        ensures
            w.bits == with_bit(old(self.w).bits, 7, false),
            *final(self.w) == *final(w),
    {
        self.bit(false)
    }

    /// Sets the field to the value `variant`.
    pub fn variant(self, variant: FIFOERR_A) -> (w: &'a mut W)
        ensures
            w.bits == with_bit(old(self.w).bits, 7, variant.spec_bit()),
            *final(self.w) == *final(w),
    {
        self.bit(variant.bit())
    }

    /// Sets the field to `ERROR`.
    pub fn error(self) -> (w: &'a mut W)
        ensures
            w.bits == with_bit(old(self.w).bits, 7, FIFOERR_A::ERROR.spec_bit()),
            *final(self.w) == *final(w),
    {
        self.variant(FIFOERR_A::ERROR)
    }
}

impl R {
    /// The value read that has the bits `bits`.
    pub fn new(bits: u32) -> (r: R)
        ensures
            r.bits == bits,
    {
        R { bits }
    }

    /// The bits of the value.
    pub fn bits(&self) -> (bits: u32)
        ensures
            bits == self.bits,
    {
        self.bits
    }

    /// Bit 0: Data Ready.
    pub fn dr(&self) -> (field: DR_R)
        ensures
            field.bits == bit_of(self.bits, 0),
    {
        DR_R::new(read_bit(self.bits, 0))
    }

    /// Bit 1: Overrun Error.
    pub fn oe(&self) -> (field: OE_R)
        ensures
            field.bits == bit_of(self.bits, 1),
    {
        OE_R::new(read_bit(self.bits, 1))
    }

    /// Bit 2: Parity Error.
    pub fn pe(&self) -> (field: PE_R)
        ensures
            field.bits == bit_of(self.bits, 2),
    {
        PE_R::new(read_bit(self.bits, 2))
    }

    /// Bit 3: Framing Error.
    pub fn fe(&self) -> (field: FE_R)
        ensures
            field.bits == bit_of(self.bits, 3),
    {
        FE_R::new(read_bit(self.bits, 3))
    }

    /// Bit 4: Break Interrupt.
    pub fn bi(&self) -> (field: BI_R)
        ensures
            field.bits == bit_of(self.bits, 4),
    {
        BI_R::new(read_bit(self.bits, 4))
    }

    /// Bit 5: TX Holding Register Empty.
    pub fn thre(&self) -> (field: THRE_R)
        ensures
            field.bits == bit_of(self.bits, 5),
    {
        THRE_R::new(read_bit(self.bits, 5))
    }

    /// Bit 6: Transmitter Empty.
    pub fn temt(&self) -> (field: TEMT_R)
        ensures
            field.bits == bit_of(self.bits, 6),
    {
        TEMT_R::new(read_bit(self.bits, 6))
    }

    /// Bit 7: RX Data Error in FIFO.
    pub fn fifoerr(&self) -> (field: FIFOERR_R)
        ensures
            field.bits == bit_of(self.bits, 7),
    {
        FIFOERR_R::new(read_bit(self.bits, 7))
    }
}

impl W {
    /// The value to be written that a reset leaves in the register.
    pub fn new() -> (w: W)
        ensures
            w.bits == 0,
    {
        W { bits: 0 }
    }

    /// The bits of the value as they stand.
    pub fn value(&self) -> (bits: u32)
        ensures
            bits == self.bits,
    {
        self.bits
    }

    /// Bit 0: Data Ready.
    pub fn dr(&mut self) -> (field: DR_W<'_>)
        ensures
            *field.w == *old(self),
            *final(self) == *final(field.w),
    {
        DR_W { w: self }
    }

    /// Bit 1: Overrun Error.
    pub fn oe(&mut self) -> (field: OE_W<'_>)
        ensures
            *field.w == *old(self),
            *final(self) == *final(field.w),
    {
        OE_W { w: self }
    }

    /// Bit 2: Parity Error.
    pub fn pe(&mut self) -> (field: PE_W<'_>)
        ensures
            *field.w == *old(self),
            *final(self) == *final(field.w),
    {
        PE_W { w: self }
    }

    /// Bit 3: Framing Error.
    pub fn fe(&mut self) -> (field: FE_W<'_>)
        ensures
            *field.w == *old(self),
            *final(self) == *final(field.w),
    {
        FE_W { w: self }
    }

    /// Bit 4: Break Interrupt.
    pub fn bi(&mut self) -> (field: BI_W<'_>)
        ensures
            *field.w == *old(self),
            *final(self) == *final(field.w),
    {
        BI_W { w: self }
    }

    /// Bit 5: TX Holding Register Empty.
    pub fn thre(&mut self) -> (field: THRE_W<'_>)
        ensures
            *field.w == *old(self),
            *final(self) == *final(field.w),
    {
        THRE_W { w: self }
    }

    /// Bit 6: Transmitter Empty.
    pub fn temt(&mut self) -> (field: TEMT_W<'_>)
        ensures
            *field.w == *old(self),
            *final(self) == *final(field.w),
    {
        TEMT_W { w: self }
    }

    /// Bit 7: RX Data Error in FIFO.
    pub fn fifoerr(&mut self) -> (field: FIFOERR_W<'_>)
        ensures
            *field.w == *old(self),
            *final(self) == *final(field.w),
    {
        FIFOERR_W { w: self }
    }
}

} // verus!

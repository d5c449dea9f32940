use vstd::prelude::*;
use crate::pac::generic::{bit_of, read_bit, with_bit, write_bit};

verus! {

/// The modem control register of the serial port.
#[derive(Clone, Copy, Debug, PartialEq, Eq, Structural)]
pub struct MCR_SPEC;

impl MCR_SPEC {
    /// The value of the register after a reset.
    pub fn reset_value() -> (bits: u32)
        ensures
            bits == 0,
    {
        0
    }
}

/// A value read from the modem control register.
#[derive(Clone, Copy, Debug, PartialEq, Eq, Structural)]
pub struct R {
    pub bits: u32,
}

/// A value to be written to the modem control register.
#[derive(Debug, PartialEq, Eq, Structural)]
pub struct W {
    pub bits: u32,
}

/// Data Terminal Ready: the values of the field `dtr`.
#[derive(Clone, Copy, Debug, PartialEq, Eq, Structural)]
pub enum DTR_A {
    DEASSERTED,
    ASSERTED,
}

impl DTR_A {
    /// The bit that stands for the value.
    pub open spec fn spec_bit(self) -> bool {
        match self {
            DTR_A::DEASSERTED => false,
            DTR_A::ASSERTED => true,
        }
    }

    /// The bit that stands for the value.
    #[verifier::when_used_as_spec(spec_bit)]
    pub fn bit(self) -> (b: bool)
        ensures
            b == self.spec_bit(),
    {
        match self {
            DTR_A::DEASSERTED => false,
            DTR_A::ASSERTED => true,
        }
    }
}

/// Data Terminal Ready: the field `dtr` of a value read, which is bit 0.
#[derive(Clone, Copy, Debug, PartialEq, Eq, Structural)]
pub struct DTR_R {
    pub bits: bool,
}

impl DTR_R {
    /// The field with the bit `bits`.
    pub fn new(bits: bool) -> (r: DTR_R)
        ensures
            r.bits == bits,
    {
        DTR_R { bits }
    }

    /// The bit of the field.
    pub fn bit(&self) -> (b: bool)
        ensures
            b == self.bits,
    {
        self.bits
    }

    /// Whether the bit of the field is 0.
    pub fn bit_is_clear(&self) -> (b: bool)
        ensures
            b == !self.bits,
    {
        !self.bits
    }

    /// Whether the bit of the field is 1.
    pub fn bit_is_set(&self) -> (b: bool)
        ensures
            b == self.bits,
    {
        self.bits
    }

    /// The value that the bit of the field stands for: `DEASSERTED` for 0, `ASSERTED` for 1.
    pub fn variant(&self) -> (v: DTR_A)
        ensures
            v == (if self.bits {
                DTR_A::ASSERTED
            } else {
                DTR_A::DEASSERTED
            }),
    {
        match self.bits {
            false => DTR_A::DEASSERTED,
            true => DTR_A::ASSERTED,
        }
    }

    /// Whether the field holds `DEASSERTED`.
    pub fn is_deasserted(&self) -> (b: bool)
        ensures
            b == (self.bits == DTR_A::DEASSERTED.spec_bit()),
    {
        self.bits == false
    }

    /// Whether the field holds `ASSERTED`.
    pub fn is_asserted(&self) -> (b: bool)
        ensures
            b == (self.bits == DTR_A::ASSERTED.spec_bit()),
    {
        self.bits == true
    }
}

/// Data Terminal Ready: the field `dtr` of a value to be written, which is bit 0.
pub struct DTR_W<'a> {
    pub w: &'a mut W,
}

impl<'a> DTR_W<'a> {
    /// Sets the bit of the field to `value` and leaves every other bit
    /// of the register value as it is.
    pub fn bit(self, value: bool) -> (w: &'a mut W)
        ensures
            w.bits == with_bit(old(self.w).bits, 0, value),
            *final(self.w) == *final(w),
    {
        self.w.bits = write_bit(self.w.bits, 0, value);
        self.w
    }

    /// Sets the bit of the field to 1.
    pub fn set_bit(self) -> (w: &'a mut W)
        ensures
            w.bits == with_bit(old(self.w).bits, 0, true),
            *final(self.w) == *final(w),
    {
        self.bit(true)
    }

    /// Sets the bit of the field to 0.
    pub fn clear_bit(self) -> (w: &'a mut W)
        ensures
            w.bits == with_bit(old(self.w).bits, 0, false),
            *final(self.w) == *final(w),
    {
        self.bit(false)
    }

    /// Sets the field to the value `variant`.
    pub fn variant(self, variant: DTR_A) -> (w: &'a mut W)
        ensures
            w.bits == with_bit(old(self.w).bits, 0, variant.spec_bit()),
            *final(self.w) == *final(w),
    {
        self.bit(variant.bit())
    }

    /// Sets the field to `DEASSERTED`.
    pub fn deasserted(self) -> (w: &'a mut W)
        ensures
            w.bits == with_bit(old(self.w).bits, 0, DTR_A::DEASSERTED.spec_bit()),
            *final(self.w) == *final(w),
    {
        self.variant(DTR_A::DEASSERTED)
    }

    /// Sets the field to `ASSERTED`.
    pub fn asserted(self) -> (w: &'a mut W)
        ensures
            w.bits == with_bit(old(self.w).bits, 0, DTR_A::ASSERTED.spec_bit()),
            *final(self.w) == *final(w),
    {
        self.variant(DTR_A::ASSERTED)
    }
}

/// Request to Send: the values of the field `rts`.
#[derive(Clone, Copy, Debug, PartialEq, Eq, Structural)]
pub enum RTS_A {
    DEASSERTED,
    ASSERTED,
}

impl RTS_A {
    /// The bit that stands for the value.
    pub open spec fn spec_bit(self) -> bool {
        match self {
            RTS_A::DEASSERTED => false,
            RTS_A::ASSERTED => true,
        }
    }

    /// The bit that stands for the value.
    #[verifier::when_used_as_spec(spec_bit)]
    pub fn bit(self) -> (b: bool)
        ensures
            b == self.spec_bit(),
    {
        match self {
            RTS_A::DEASSERTED => false,
            RTS_A::ASSERTED => true,
        }
    }
}

/// Request to Send: the field `rts` of a value read, which is bit 1.
#[derive(Clone, Copy, Debug, PartialEq, Eq, Structural)]
pub struct RTS_R {
    pub bits: bool,
}

impl RTS_R {
    /// The field with the bit `bits`.
    pub fn new(bits: bool) -> (r: RTS_R)
        ensures
            r.bits == bits,
    {
        RTS_R { bits }
    }

    /// The bit of the field.
    pub fn bit(&self) -> (b: bool)
        ensures
            b == self.bits,
    {
        self.bits
    }

    /// Whether the bit of the field is 0.
    pub fn bit_is_clear(&self) -> (b: bool)
        ensures
            b == !self.bits,
    {
        !self.bits
    }

    /// Whether the bit of the field is 1.
    pub fn bit_is_set(&self) -> (b: bool)
        ensures
            b == self.bits,
    {
        self.bits
    }

    /// The value that the bit of the field stands for: `DEASSERTED` for 0, `ASSERTED` for 1.
    pub fn variant(&self) -> (v: RTS_A)
        ensures
            v == (if self.bits {
                RTS_A::ASSERTED
            } else {
                RTS_A::DEASSERTED
            }),
    {
        match self.bits {
            false => RTS_A::DEASSERTED,
            true => RTS_A::ASSERTED,
        }
    }

    /// Whether the field holds `DEASSERTED`.
    pub fn is_deasserted(&self) -> (b: bool)
        ensures
            b == (self.bits == RTS_A::DEASSERTED.spec_bit()),
    {
        self.bits == false
    }

    /// Whether the field holds `ASSERTED`.
    pub fn is_asserted(&self) -> (b: bool)
        ensures
            b == (self.bits == RTS_A::ASSERTED.spec_bit()),
    {
        self.bits == true
    }
}

/// Request to Send: the field `rts` of a value to be written, which is bit 1.
pub struct RTS_W<'a> {
    pub w: &'a mut W,
}

impl<'a> RTS_W<'a> {
    /// Sets the bit of the field to `value` and leaves every other bit
    /// of the register value as it is.
    pub fn bit(self, value: bool) -> (w: &'a mut W)
        ensures
            w.bits == with_bit(old(self.w).bits, 1, value),
            *final(self.w) == *final(w),
    {
        self.w.bits = write_bit(self.w.bits, 1, value);
        self.w
    }

    /// Sets the bit of the field to 1.
    pub fn set_bit(self) -> (w: &'a mut W)
        ensures
            w.bits == with_bit(old(self.w).bits, 1, true),
            *final(self.w) == *final(w),
    {
        self.bit(true)
    }

    /// Sets the bit of the field to 0.
    pub fn clear_bit(self) -> (w: &'a mut W)
        ensures
            w.bits == with_bit(old(self.w).bits, 1, false),
            *final(self.w) == *final(w),
    {
        self.bit(false)
    }

    /// Sets the field to the value `variant`.
    pub fn variant(self, variant: RTS_A) -> (w: &'a mut W)
        ensures
            w.bits == with_bit(old(self.w).bits, 1, variant.spec_bit()),
            *final(self.w) == *final(w),
    {
        self.bit(variant.bit())
    }

    /// Sets the field to `DEASSERTED`.
    pub fn deasserted(self) -> (w: &'a mut W)
        ensures
            w.bits == with_bit(old(self.w).bits, 1, RTS_A::DEASSERTED.spec_bit()),
            *final(self.w) == *final(w),
    {
        self.variant(RTS_A::DEASSERTED)
    }

    /// Sets the field to `ASSERTED`.
    pub fn asserted(self) -> (w: &'a mut W)
        ensures
            w.bits == with_bit(old(self.w).bits, 1, RTS_A::ASSERTED.spec_bit()),
            *final(self.w) == *final(w),
    {
        self.variant(RTS_A::ASSERTED)
    }
}

/// Loop Back Mode: the values of the field `loop`.
#[derive(Clone, Copy, Debug, PartialEq, Eq, Structural)]
pub enum LOOP_A {
    NORMAL,
    LOOP_BACK,
}

impl LOOP_A {
    /// The bit that stands for the value.
    pub open spec fn spec_bit(self) -> bool {
        match self {
            LOOP_A::NORMAL => false,
            LOOP_A::LOOP_BACK => true,
        }
    }

    /// The bit that stands for the value.
    #[verifier::when_used_as_spec(spec_bit)]
    pub fn bit(self) -> (b: bool)
        ensures
            b == self.spec_bit(),
    {
        match self {
            LOOP_A::NORMAL => false,
            LOOP_A::LOOP_BACK => true,
        }
    }
}

/// Loop Back Mode: the field `loop` of a value read, which is bit 4.
#[derive(Clone, Copy, Debug, PartialEq, Eq, Structural)]
pub struct LOOP_R {
    pub bits: bool,
}

impl LOOP_R {
    /// The field with the bit `bits`.
    pub fn new(bits: bool) -> (r: LOOP_R)
        ensures
            r.bits == bits,
    {
        LOOP_R { bits }
    }

    /// The bit of the field.
    pub fn bit(&self) -> (b: bool)
        ensures
            b == self.bits,
    {
        self.bits
    }

    /// Whether the bit of the field is 0.
    pub fn bit_is_clear(&self) -> (b: bool)
        ensures
            b == !self.bits,
    {
        !self.bits
    }

    /// Whether the bit of the field is 1.
    pub fn bit_is_set(&self) -> (b: bool)
        ensures
            b == self.bits,
    {
        self.bits
    }

    /// The value that the bit of the field stands for: `NORMAL` for 0, `LOOP_BACK` for 1.
    pub fn variant(&self) -> (v: LOOP_A)
        ensures
            v == (if self.bits {
                LOOP_A::LOOP_BACK
            } else {
                LOOP_A::NORMAL
            }),
    {
        match self.bits {
            false => LOOP_A::NORMAL,
            true => LOOP_A::LOOP_BACK,
        }
    }

    /// Whether the field holds `NORMAL`.
    pub fn is_normal(&self) -> (b: bool)
        ensures
            b == (self.bits == LOOP_A::NORMAL.spec_bit()),
    {
        self.bits == false
    }

    /// Whether the field holds `LOOP_BACK`.
    pub fn is_loop_back(&self) -> (b: bool)
        ensures
            b == (self.bits == LOOP_A::LOOP_BACK.spec_bit()),
    {
        self.bits == true
    }
}

/// Loop Back Mode: the field `loop` of a value to be written, which is bit 4.
pub struct LOOP_W<'a> {
    pub w: &'a mut W,
}

impl<'a> LOOP_W<'a> {
    /// Sets the bit of the field to `value` and leaves every other bit
    /// of the register value as it is.
    pub fn bit(self, value: bool) -> (w: &'a mut W)
        ensures
            w.bits == with_bit(old(self.w).bits, 4, value),
            *final(self.w) == *final(w),
    {
        self.w.bits = write_bit(self.w.bits, 4, value);
        self.w
    }

    /// Sets the bit of the field to 1.
    pub fn set_bit(self) -> (w: &'a mut W)
        ensures
            w.bits == with_bit(old(self.w).bits, 4, true),
            *final(self.w) == *final(w),
    {
        self.bit(true)
    }

    /// Sets the bit of the field to 0.
    pub fn clear_bit(self) -> (w: &'a mut W)
        ensures
            w.bits == with_bit(old(self.w).bits, 4, false),
            *final(self.w) == *final(w),
    {
        self.bit(false)
    }

    /// Sets the field to the value `variant`.
    pub fn variant(self, variant: LOOP_A) -> (w: &'a mut W)
        ensures
            w.bits == with_bit(old(self.w).bits, 4, variant.spec_bit()),
            *final(self.w) == *final(w),
    {
        self.bit(variant.bit())
    }

    /// Sets the field to `NORMAL`.
    pub fn normal(self) -> (w: &'a mut W)
        ensures
            w.bits == with_bit(old(self.w).bits, 4, LOOP_A::NORMAL.spec_bit()),
            *final(self.w) == *final(w),
    {
        self.variant(LOOP_A::NORMAL)
    }

    /// Sets the field to `LOOP_BACK`.
    pub fn loop_back(self) -> (w: &'a mut W)
        ensures
            w.bits == with_bit(old(self.w).bits, 4, LOOP_A::LOOP_BACK.spec_bit()),
            *final(self.w) == *final(w),
    {
        self.variant(LOOP_A::LOOP_BACK)
    }
}

impl R {
    /// The value read that has the bits `bits`.
    pub fn new(bits: u32) -> (r: R)
        ensures
            r.bits == bits,
    {
        R { bits }
    }

    /// The bits of the value.
    pub fn bits(&self) -> (bits: u32)
        ensures
            bits == self.bits,
    {
        self.bits
    }

    /// Bit 0: Data Terminal Ready.
    pub fn dtr(&self) -> (field: DTR_R)
        ensures
            field.bits == bit_of(self.bits, 0),
    {
        DTR_R::new(read_bit(self.bits, 0))
    }

    /// Bit 1: Request to Send.
    pub fn rts(&self) -> (field: RTS_R)
        ensures
            field.bits == bit_of(self.bits, 1),
    {
        RTS_R::new(read_bit(self.bits, 1))
    }

    /// Bit 4: Loop Back Mode.
    pub fn loop_(&self) -> (field: LOOP_R)
        ensures
            field.bits == bit_of(self.bits, 4),
    {
        LOOP_R::new(read_bit(self.bits, 4))
    }
}

impl W {
    /// The value to be written that a reset leaves in the register.
    pub fn new() -> (w: W)
        ensures
            w.bits == 0,
    {
        W { bits: 0 }
    }

    /// The bits of the value as they stand.
    pub fn value(&self) -> (bits: u32)
        ensures
            bits == self.bits,
    {
        self.bits
    }

    /// Bit 0: Data Terminal Ready.
    pub fn dtr(&mut self) -> (field: DTR_W<'_>)
        ensures
            *field.w == *old(self),
            *final(self) == *final(field.w),
    {
        DTR_W { w: self }
    }

    /// Bit 1: Request to Send.
    pub fn rts(&mut self) -> (field: RTS_W<'_>)
        ensures
            *field.w == *old(self),
            *final(self) == *final(field.w),
    {
        RTS_W { w: self }
    }

    /// Bit 4: Loop Back Mode.
    pub fn loop_(&mut self) -> (field: LOOP_W<'_>)
        ensures
            *field.w == *old(self),
            *final(self) == *final(field.w),
    {
        LOOP_W { w: self }
    }
}

} // verus!

//! Bit-flag sets carried in status messages.
//!
//! A flag set is an unsigned integer in which each defined bit stands for one
//! condition. The remaining bits are reserved: a raw value with a reserved
//! bit set is not a flag set, and `from_bits` refuses it. A value of one of
//! these types therefore never holds a reserved bit.

use vstd::prelude::*;

verus! {

/// Error conditions reported by the motor controller.
#[derive(Debug, Clone, Copy, PartialEq, Eq)]
pub struct ErrorFlags {
    bits: u16,
}

impl View for ErrorFlags {
    type V = u16;

    /// The raw value of the set.
    closed spec fn view(&self) -> u16 {
        self.bits
    }
}

impl ErrorFlags {
    /// Hardware over current.
    pub const HARDWARE_OVER_CURRENT: u16 = 0x0001;

    /// Software over current.
    pub const SOFTWARE_OVER_CURRENT: u16 = 0x0002;

    /// DC bus over current.
    pub const DC_BUS_OVER_CURRENT: u16 = 0x0004;

    /// Bad motor position sequence.
    pub const BAD_MOTOR_POSITION_SEQUENCE: u16 = 0x0008;

    /// The watchdog caused the last reset.
    pub const WATCHDOG_CAUSED_LAST_RESET: u16 = 0x0010;

    /// The configuration could not be read.
    pub const CONFIG_READ_ERROR: u16 = 0x0020;

    /// Under-voltage lock-out of the 15 V rail.
    pub const RAIL_15V_UVLO: u16 = 0x0040;

    /// Desaturation fault.
    pub const DESATURATION_FAULT: u16 = 0x0080;

    /// Motor over speed.
    pub const MOTOR_OVER_SPEED: u16 = 0x0100;

    /// Every defined bit.
    pub const ALL: u16 = 0x01FF;

    #[verifier::type_invariant]
    spec fn only_defined_bits(self) -> bool {
        Self::defined(self.bits)
    }

    /// No reserved bit of `bits` is set.
    pub open spec fn defined(bits: u16) -> bool {
        bits & !Self::ALL == 0
    }

    /// The flag set with raw value `bits`, if `bits` is one.
    pub closed spec fn parse(bits: u16) -> Option<ErrorFlags> {
        if Self::defined(bits) {
            Some(ErrorFlags { bits })
        } else {
            None
        }
    }

    /// What `parse` gives: a set exactly for the raw values without a
    /// reserved bit, which are the values up to `ALL`, and then the set with
    /// that raw value.
    pub proof fn lemma_parse(bits: u16)
        ensures
            Self::parse(bits) is Some <==> Self::defined(bits),
            Self::defined(bits) <==> bits <= Self::ALL,
            Self::parse(bits) matches Some(flags) ==> flags@ == bits,
    {
        assert((bits & !0x01FFu16 == 0) <==> bits <= 0x01FFu16) by (bit_vector);
    }

    /// Makes a flag set of a raw value, refusing one with a reserved bit:
    /// any value above `ALL`.
    pub fn from_bits(bits: u16) -> (r: Option<ErrorFlags>)
        ensures
            r == Self::parse(bits),
            r is Some <==> Self::defined(bits),
            r is Some <==> bits <= Self::ALL,
            r matches Some(flags) ==> flags@ == bits,
    {
        proof {
            Self::lemma_parse(bits);
        }
        if bits & !Self::ALL == 0 {
            Some(ErrorFlags { bits })
        } else {
            None
        }
    }

    /// The raw value of the set.
    pub fn bits(&self) -> (r: u16)
        ensures
            r == self@,
            Self::defined(r),
    {
        proof {
            use_type_invariant(self);
        }
        self.bits
    }

    /// Whether every bit of `mask` is in the set.
    pub fn contains(&self, mask: u16) -> (r: bool)
        ensures
            r == (self@ & mask == mask),
    {
        self.bits & mask == mask
    }
}

/// The limits that currently bound the motor controller's output.
#[derive(Debug, Clone, Copy, PartialEq, Eq)]
pub struct LimitFlags {
    bits: u16,
}

impl View for LimitFlags {
    type V = u16;

    /// The raw value of the set.
    closed spec fn view(&self) -> u16 {
        self.bits
    }
}

impl LimitFlags {
    /// Output voltage PWM.
    pub const OUTPUT_VOLTAGE_PWM: u16 = 0x0001;

    /// Motor current.
    pub const MOTOR_CURRENT: u16 = 0x0002;

    /// Velocity.
    pub const VELOCITY: u16 = 0x0004;

    /// Bus current.
    pub const BUS_CURRENT: u16 = 0x0008;

    /// Upper limit of the bus voltage.
    pub const BUS_VOLTAGE_UPPER_LIMIT: u16 = 0x0010;

    /// Lower limit of the bus voltage.
    pub const BUS_VOLTAGE_LOWER_LIMIT: u16 = 0x0020;

    /// Temperature.
    pub const TEMPERATURE: u16 = 0x0040;

    /// Every defined bit.
    pub const ALL: u16 = 0x007F;

    #[verifier::type_invariant]
    spec fn only_defined_bits(self) -> bool {
        Self::defined(self.bits)
    }

    /// No reserved bit of `bits` is set.
    pub open spec fn defined(bits: u16) -> bool {
        bits & !Self::ALL == 0
    }

    /// The flag set with raw value `bits`, if `bits` is one.
    pub closed spec fn parse(bits: u16) -> Option<LimitFlags> {
        if Self::defined(bits) {
            Some(LimitFlags { bits })
        } else {
            None
        }
    }

    /// What `parse` gives: a set exactly for the raw values without a
    /// reserved bit, which are the values up to `ALL`, and then the set with
    /// that raw value.
    pub proof fn lemma_parse(bits: u16)
        ensures
            Self::parse(bits) is Some <==> Self::defined(bits),
            Self::defined(bits) <==> bits <= Self::ALL,
            Self::parse(bits) matches Some(flags) ==> flags@ == bits,
    {
        assert((bits & !0x007Fu16 == 0) <==> bits <= 0x007Fu16) by (bit_vector);
    }

    /// Makes a flag set of a raw value, refusing one with a reserved bit:
    /// any value above `ALL`.
    pub fn from_bits(bits: u16) -> (r: Option<LimitFlags>)
        ensures
            r == Self::parse(bits),
            r is Some <==> Self::defined(bits),
            r is Some <==> bits <= Self::ALL,
            r matches Some(flags) ==> flags@ == bits,
    {
        proof {
            Self::lemma_parse(bits);
        }
        if bits & !Self::ALL == 0 {
            Some(LimitFlags { bits })
        } else {
            None
        }
    }

    /// The raw value of the set.
    pub fn bits(&self) -> (r: u16)
        ensures
            r == self@,
            Self::defined(r),
    {
        proof {
            use_type_invariant(self);
        }
        self.bits
    }

    /// Whether every bit of `mask` is in the set.
    pub fn contains(&self, mask: u16) -> (r: bool)
        ensures
            r == (self@ & mask == mask),
    {
        self.bits & mask == mask
    }
}

/// State of the precharge contactor drivers of the battery management unit.
/// Bit `0x80` is unused and counts as reserved.
#[derive(Debug, Clone, Copy, PartialEq, Eq)]
pub struct ContactorDriverStatus {
    bits: u8,
}

impl View for ContactorDriverStatus {
    type V = u8;

    /// The raw value of the set.
    closed spec fn view(&self) -> u8 {
        self.bits
    }
}

impl ContactorDriverStatus {
    /// Error in the driver of contactor 1.
    pub const CONTACTOR_1_DRIVER_ERROR: u8 = 0x01;

    /// Error in the driver of contactor 2.
    pub const CONTACTOR_2_DRIVER_ERROR: u8 = 0x02;

    /// Output of contactor 1 is on.
    pub const CONTACTOR_1_OUTPUT_ON: u8 = 0x04;

    /// Output of contactor 2 is on.
    pub const CONTACTOR_2_OUTPUT_ON: u8 = 0x08;

    /// The contactor supply voltage is in order.
    pub const SUPPLY_VOLTAGE_OK: u8 = 0x10;

    /// Error in the driver of contactor 3.
    pub const CONTACTOR_3_DRIVER_ERROR: u8 = 0x20;

    /// Output of contactor 3 is on.
    pub const CONTACTOR_3_OUTPUT_ON: u8 = 0x40;

    /// Every defined bit.
    pub const ALL: u8 = 0x7F;

    #[verifier::type_invariant]
    spec fn only_defined_bits(self) -> bool {
        Self::defined(self.bits)
    }

    /// No reserved bit of `bits` is set.
    pub open spec fn defined(bits: u8) -> bool {
        bits & !Self::ALL == 0
    }

    /// The flag set with raw value `bits`, if `bits` is one.
    pub closed spec fn parse(bits: u8) -> Option<ContactorDriverStatus> {
        if Self::defined(bits) {
            Some(ContactorDriverStatus { bits })
        } else {
            None
        }
    }

    /// What `parse` gives: a set exactly for the raw values without a
    /// reserved bit, which are the values up to `ALL`, and then the set with
    /// that raw value.
    pub proof fn lemma_parse(bits: u8)
        ensures
            Self::parse(bits) is Some <==> Self::defined(bits),
            Self::defined(bits) <==> bits <= Self::ALL,
            Self::parse(bits) matches Some(flags) ==> flags@ == bits,
    {
        assert((bits & !0x7Fu8 == 0) <==> bits <= 0x7Fu8) by (bit_vector);
    }

    /// Makes a flag set of a raw value, refusing one with a reserved bit:
    /// any value above `ALL`.
    pub fn from_bits(bits: u8) -> (r: Option<ContactorDriverStatus>)
        ensures
            r == Self::parse(bits),
            r is Some <==> Self::defined(bits),
            r is Some <==> bits <= Self::ALL,
            r matches Some(flags) ==> flags@ == bits,
    {
        proof {
            Self::lemma_parse(bits);
        }
        if bits & !Self::ALL == 0 {
            Some(ContactorDriverStatus { bits })
        } else {
            None
        }
    }

    /// The raw value of the set.
    pub fn bits(&self) -> (r: u8)
        ensures
            r == self@,
            Self::defined(r),
    {
        proof {
            use_type_invariant(self);
        }
        self.bits
    }

    /// Whether every bit of `mask` is in the set.
    pub fn contains(&self, mask: u8) -> (r: bool)
        ensures
            r == (self@ & mask == mask),
    {
        self.bits & mask == mask
    }
}

} // verus!

//! Gain and integration time, and their bit fields in the control register.
//!
//! Both settings share the 8-bit control register: the gain code occupies
//! bits 5:4, the integration-time code bits 2:0; bits 3 and 7:6 are
//! reserved and must survive every reconfiguration.  Encoding and decoding
//! are total functions; an unrecognized field value decodes to `None`
//! rather than aborting, since register corruption is an observable runtime
//! condition.

use vstd::prelude::*;

verus! {

/// Bits of the control register that hold the gain code.
pub const GAIN_FIELD_MASK: u8 = 0b00110000;
/// Bits of the control register kept when the gain code is replaced.
pub const GAIN_KEEP_MASK: u8 = 0b11001111;
/// Bits of the control register that hold the integration-time code.
pub const ITIME_FIELD_MASK: u8 = 0b00000111;
/// Bits of the control register kept when the integration-time code is replaced.
pub const ITIME_KEEP_MASK: u8 = 0b11111000;

/// Amplification applied by the sensor before digitization.
///
/// Each variant maps to a fixed code in bits 5:4 of the control register
/// and to a fixed multiplier used only in the lux conversion.
#[allow(non_camel_case_types)]
#[derive(Clone, Copy, Debug, PartialEq, Eq, Structural)]
pub enum Gain {
    /// Gain of 1x.
    LOW,
    /// Gain of 25x.
    MED,
    /// Gain of 428x.
    HIGH,
    /// Gain of 9876x.
    MAX,
}

/// The control-register code of a gain setting (bits 5:4).
pub open spec fn gain_bits(g: Gain) -> u8 {
    match g {
        Gain::LOW => 0x00,
        Gain::MED => 0x10,
        Gain::HIGH => 0x20,
        Gain::MAX => 0x30,
    }
}

/// The gain setting encoded by a control-register field value, if any.
pub open spec fn gain_from_bits(bits: u8) -> Option<Gain> {
    if bits == 0x00 {
        Some(Gain::LOW)
    } else if bits == 0x10 {
        Some(Gain::MED)
    } else if bits == 0x20 {
        Some(Gain::HIGH)
    } else if bits == 0x30 {
        Some(Gain::MAX)
    } else {
        None
    }
}

/// The multiplier a gain setting contributes to the lux conversion.
pub open spec fn gain_multiplier(g: Gain) -> u32 {
    match g {
        Gain::LOW => 1,
        Gain::MED => 25,
        Gain::HIGH => 428,
        Gain::MAX => 9876,
    }
}

impl Gain {
    /// The register code of this gain setting.
    pub fn bits(&self) -> (r: u8)
        ensures
            r == gain_bits(*self),
    {
        match *self {
            Gain::LOW => 0x00,
            Gain::MED => 0x10,
            Gain::HIGH => 0x20,
            Gain::MAX => 0x30,
        }
    }

    /// Decode a register field value into a gain setting.
    pub fn from_u8(bits: u8) -> (r: Option<Gain>)
        ensures
            r == gain_from_bits(bits),
    {
        match bits {
            0x00 => Some(Gain::LOW),
            0x10 => Some(Gain::MED),
            0x20 => Some(Gain::HIGH),
            0x30 => Some(Gain::MAX),
            _ => None,
        }
    }

    /// The multiplier this gain setting contributes to the lux conversion.
    pub fn multiplier(&self) -> (r: u32)
        ensures
            r == gain_multiplier(*self),
    {
        match *self {
            Gain::LOW => 1,
            Gain::MED => 25,
            Gain::HIGH => 428,
            Gain::MAX => 9876,
        }
    }

    /// Human-readable name of this gain setting.
    pub fn describe(&self) -> (r: &'static str)
        ensures
            *self == Gain::LOW ==> r@ == "LOW (1x)"@,
            *self == Gain::MED ==> r@ == "MED (25x)"@,
            *self == Gain::HIGH ==> r@ == "HIGH (428x)"@,
            *self == Gain::MAX ==> r@ == "MAX (9876x)"@,
    {
        match *self {
            Gain::LOW => "LOW (1x)",
            Gain::MED => "MED (25x)",
            Gain::HIGH => "HIGH (428x)",
            Gain::MAX => "MAX (9876x)",
        }
    }
}

/// Exposure duration of the ADC.
///
/// Each variant maps to a code in bits 2:0 of the control register; the
/// code also parametrizes the integration duration, `100 + 100 * code`
/// milliseconds, used by the lux conversion, and the saturation threshold.
#[derive(Clone, Copy, Debug, PartialEq, Eq, Structural)]
pub enum IntegrationTime {
    /// 100ms integration time.
    Time100ms,
    /// 200ms integration time.
    Time200ms,
    /// 300ms integration time.
    Time300ms,
    /// 400ms integration time.
    Time400ms,
    /// 500ms integration time.
    Time500ms,
    /// 600ms integration time.
    Time600ms,
}

/// The control-register code of an integration time (bits 2:0).
pub open spec fn itime_bits(t: IntegrationTime) -> u8 {
    match t {
        IntegrationTime::Time100ms => 0x00,
        IntegrationTime::Time200ms => 0x01,
        IntegrationTime::Time300ms => 0x02,
        IntegrationTime::Time400ms => 0x03,
        IntegrationTime::Time500ms => 0x04,
        IntegrationTime::Time600ms => 0x05,
    }
}

/// The integration time encoded by a control-register field value, if any.
pub open spec fn itime_from_bits(bits: u8) -> Option<IntegrationTime> {
    if bits == 0x00 {
        Some(IntegrationTime::Time100ms)
    } else if bits == 0x01 {
        Some(IntegrationTime::Time200ms)
    } else if bits == 0x02 {
        Some(IntegrationTime::Time300ms)
    } else if bits == 0x03 {
        Some(IntegrationTime::Time400ms)
    } else if bits == 0x04 {
        Some(IntegrationTime::Time500ms)
    } else if bits == 0x05 {
        Some(IntegrationTime::Time600ms)
    } else {
        None
    }
}

/// The integration duration in milliseconds: `100 + 100 * code`.
pub open spec fn spec_atime_ms(t: IntegrationTime) -> u32 {
    (100 + 100 * itime_bits(t)) as u32
}

/// The saturation threshold of the channel counters: the ADC tops out at
/// `0x8FFF` for the shortest integration time and at `0xFFFF` otherwise.
pub open spec fn spec_max_count(t: IntegrationTime) -> u16 {
    if t == IntegrationTime::Time100ms {
        0x8FFF
    } else {
        0xFFFF
    }
}

impl IntegrationTime {
    /// The register code of this integration time.
    pub fn bits(&self) -> (r: u8)
        ensures
            r == itime_bits(*self),
    {
        match *self {
            IntegrationTime::Time100ms => 0x00,
            IntegrationTime::Time200ms => 0x01,
            IntegrationTime::Time300ms => 0x02,
            IntegrationTime::Time400ms => 0x03,
            IntegrationTime::Time500ms => 0x04,
            IntegrationTime::Time600ms => 0x05,
        }
    }

    /// Decode a register field value into an integration time.
    pub fn from_u8(bits: u8) -> (r: Option<IntegrationTime>)
        ensures
            r == itime_from_bits(bits),
    {
        match bits {
            0x00 => Some(IntegrationTime::Time100ms),
            0x01 => Some(IntegrationTime::Time200ms),
            0x02 => Some(IntegrationTime::Time300ms),
            0x03 => Some(IntegrationTime::Time400ms),
            0x04 => Some(IntegrationTime::Time500ms),
            0x05 => Some(IntegrationTime::Time600ms),
            _ => None,
        }
    }

    /// The integration duration in milliseconds.
    pub fn atime_ms(&self) -> (r: u32)
        ensures
            r == spec_atime_ms(*self),
    {
        match *self {
            IntegrationTime::Time100ms => 100,
            IntegrationTime::Time200ms => 200,
            IntegrationTime::Time300ms => 300,
            IntegrationTime::Time400ms => 400,
            IntegrationTime::Time500ms => 500,
            IntegrationTime::Time600ms => 600,
        }
    }

    /// The saturation threshold of the channel counters for this
    /// integration time.
    pub fn max_count(&self) -> (r: u16)
        ensures
            r == spec_max_count(*self),
    {
        match *self {
            IntegrationTime::Time100ms => 0x8FFF,
            _ => 0xFFFF,
        }
    }

    /// Human-readable name of this integration time.
    pub fn describe(&self) -> (r: &'static str)
        ensures
            *self == IntegrationTime::Time100ms ==> r@ == "100ms"@,
            *self == IntegrationTime::Time200ms ==> r@ == "200ms"@,
            *self == IntegrationTime::Time300ms ==> r@ == "300ms"@,
            *self == IntegrationTime::Time400ms ==> r@ == "400ms"@,
            *self == IntegrationTime::Time500ms ==> r@ == "500ms"@,
            *self == IntegrationTime::Time600ms ==> r@ == "600ms"@,
    {
        match *self {
            IntegrationTime::Time100ms => "100ms",
            IntegrationTime::Time200ms => "200ms",
            IntegrationTime::Time300ms => "300ms",
            IntegrationTime::Time400ms => "400ms",
            IntegrationTime::Time500ms => "500ms",
            IntegrationTime::Time600ms => "600ms",
        }
    }
}

/// The control register after the gain field is replaced: the old gain
/// code cleared, the new one OR'd in, every other bit untouched.
pub open spec fn spec_control_with_gain(control: u8, g: Gain) -> u8 {
    (control & GAIN_KEEP_MASK) | gain_bits(g)
}

/// The control register after the integration-time field is replaced.
pub open spec fn spec_control_with_itime(control: u8, t: IntegrationTime) -> u8 {
    (control & ITIME_KEEP_MASK) | itime_bits(t)
}

/// Compute the control-register value that selects gain `g` while keeping
/// the integration-time field and the reserved bits of `control`.
pub fn control_with_gain(control: u8, g: Gain) -> (r: u8)
    ensures
        r == spec_control_with_gain(control, g),
{
    (control & GAIN_KEEP_MASK) | g.bits()
}

/// Compute the control-register value that selects integration time `t`
/// while keeping the gain field and the reserved bits of `control`.
pub fn control_with_itime(control: u8, t: IntegrationTime) -> (r: u8)
    ensures
        r == spec_control_with_itime(control, t),
{
    (control & ITIME_KEEP_MASK) | t.bits()
}

/// Decoding the gain code of a gain setting gives the setting back.
pub proof fn lemma_gain_bits_round_trip(g: Gain)
    ensures
        gain_from_bits(gain_bits(g)) == Some(g),
{
    match g {
        Gain::LOW => assert(gain_from_bits(0x00) == Some(Gain::LOW)),
        Gain::MED => assert(gain_from_bits(0x10) == Some(Gain::MED)),
        Gain::HIGH => assert(gain_from_bits(0x20) == Some(Gain::HIGH)),
        Gain::MAX => assert(gain_from_bits(0x30) == Some(Gain::MAX)),
    }
}

/// Decoding the integration-time code of a setting gives the setting back.
pub proof fn lemma_itime_bits_round_trip(t: IntegrationTime)
    ensures
        itime_from_bits(itime_bits(t)) == Some(t),
{
    match t {
        IntegrationTime::Time100ms => assert(itime_from_bits(0x00) == Some(IntegrationTime::Time100ms)),
        IntegrationTime::Time200ms => assert(itime_from_bits(0x01) == Some(IntegrationTime::Time200ms)),
        IntegrationTime::Time300ms => assert(itime_from_bits(0x02) == Some(IntegrationTime::Time300ms)),
        IntegrationTime::Time400ms => assert(itime_from_bits(0x03) == Some(IntegrationTime::Time400ms)),
        IntegrationTime::Time500ms => assert(itime_from_bits(0x04) == Some(IntegrationTime::Time500ms)),
        IntegrationTime::Time600ms => assert(itime_from_bits(0x05) == Some(IntegrationTime::Time600ms)),
    }
}

/// Writing a gain setting into any control-register value and decoding the
/// gain field back yields the original setting.
pub proof fn lemma_gain_round_trip(control: u8, g: Gain)
    ensures
        spec_control_with_gain(control, g) & GAIN_FIELD_MASK == gain_bits(g),
        gain_from_bits(spec_control_with_gain(control, g) & GAIN_FIELD_MASK) == Some(g),
{
    match g {
        Gain::LOW => {
            assert(((control & 0b11001111u8) | 0x00) & 0b00110000 == 0x00) by (bit_vector);
        },
        Gain::MED => {
            assert(((control & 0b11001111u8) | 0x10) & 0b00110000 == 0x10) by (bit_vector);
        },
        Gain::HIGH => {
            assert(((control & 0b11001111u8) | 0x20) & 0b00110000 == 0x20) by (bit_vector);
        },
        Gain::MAX => {
            assert(((control & 0b11001111u8) | 0x30) & 0b00110000 == 0x30) by (bit_vector);
        },
    }
}

/// Writing an integration time into any control-register value and
/// decoding the integration-time field back yields the original setting.
pub proof fn lemma_itime_round_trip(control: u8, t: IntegrationTime)
    ensures
        spec_control_with_itime(control, t) & ITIME_FIELD_MASK == itime_bits(t),
        itime_from_bits(spec_control_with_itime(control, t) & ITIME_FIELD_MASK) == Some(t),
{
    match t {
        IntegrationTime::Time100ms => {
            assert(((control & 0b11111000u8) | 0x00) & 0b00000111 == 0x00) by (bit_vector);
        },
        IntegrationTime::Time200ms => {
            assert(((control & 0b11111000u8) | 0x01) & 0b00000111 == 0x01) by (bit_vector);
        },
        IntegrationTime::Time300ms => {
            assert(((control & 0b11111000u8) | 0x02) & 0b00000111 == 0x02) by (bit_vector);
        },
        IntegrationTime::Time400ms => {
            assert(((control & 0b11111000u8) | 0x03) & 0b00000111 == 0x03) by (bit_vector);
        },
        IntegrationTime::Time500ms => {
            assert(((control & 0b11111000u8) | 0x04) & 0b00000111 == 0x04) by (bit_vector);
        },
        IntegrationTime::Time600ms => {
            assert(((control & 0b11111000u8) | 0x05) & 0b00000111 == 0x05) by (bit_vector);
        },
    }
}

/// Replacing the gain field leaves every bit outside it — the
/// integration-time field and the reserved bits — unchanged.
pub proof fn lemma_gain_update_isolated(control: u8, g: Gain)
    ensures
        spec_control_with_gain(control, g) & GAIN_KEEP_MASK == control & GAIN_KEEP_MASK,
        spec_control_with_gain(control, g) & ITIME_FIELD_MASK == control & ITIME_FIELD_MASK,
{
    let b = gain_bits(g);
    match g {
        Gain::LOW => assert(0x00u8 & 0b11001111 == 0) by (bit_vector),
        Gain::MED => assert(0x10u8 & 0b11001111 == 0) by (bit_vector),
        Gain::HIGH => assert(0x20u8 & 0b11001111 == 0) by (bit_vector),
        Gain::MAX => assert(0x30u8 & 0b11001111 == 0) by (bit_vector),
    }
    assert(((control & 0b11001111u8) | b) & 0b11001111 == control & 0b11001111) by (bit_vector)
        requires
            b & 0b11001111u8 == 0,
    ;
    assert(((control & 0b11001111u8) | b) & 0b00000111 == control & 0b00000111) by (bit_vector)
        requires
            b & 0b11001111u8 == 0,
    ;
}

/// Replacing the integration-time field leaves every bit outside it — the
/// gain field and the reserved bits — unchanged.
pub proof fn lemma_itime_update_isolated(control: u8, t: IntegrationTime)
    ensures
        spec_control_with_itime(control, t) & ITIME_KEEP_MASK == control & ITIME_KEEP_MASK,
        spec_control_with_itime(control, t) & GAIN_FIELD_MASK == control & GAIN_FIELD_MASK,
{
    let b = itime_bits(t);
    match t {
        IntegrationTime::Time100ms => assert(0x00u8 & 0b11111000 == 0) by (bit_vector),
        IntegrationTime::Time200ms => assert(0x01u8 & 0b11111000 == 0) by (bit_vector),
        IntegrationTime::Time300ms => assert(0x02u8 & 0b11111000 == 0) by (bit_vector),
        IntegrationTime::Time400ms => assert(0x03u8 & 0b11111000 == 0) by (bit_vector),
        IntegrationTime::Time500ms => assert(0x04u8 & 0b11111000 == 0) by (bit_vector),
        IntegrationTime::Time600ms => assert(0x05u8 & 0b11111000 == 0) by (bit_vector),
    }
    assert(((control & 0b11111000u8) | b) & 0b11111000 == control & 0b11111000) by (bit_vector)
        requires
            b & 0b11111000u8 == 0,
    ;
    assert(((control & 0b11111000u8) | b) & 0b00110000 == control & 0b00110000) by (bit_vector)
        requires
            b & 0b11111000u8 == 0,
    ;
}

} // verus!

use tsl2591::config::{control_with_gain, control_with_itime, Gain, IntegrationTime};
use tsl2591::errors::TSL2591Error;
use tsl2591::registers::command_byte;

#[test]
fn gain_codes_round_trip() {
    let variants = [Gain::LOW, Gain::MED, Gain::HIGH, Gain::MAX];
    let codes: [u8; 4] = [0x00, 0x10, 0x20, 0x30];
    for i in 0..4 {
        assert_eq!(variants[i].bits(), codes[i]);
        assert_eq!(Gain::from_u8(codes[i]), Some(variants[i]));
    }
}

#[test]
fn gain_round_trips_through_control_field() {
    for control in [0x00u8, 0xFF, 0b11001111, 0b10101010] {
        for g in [Gain::LOW, Gain::MED, Gain::HIGH, Gain::MAX] {
            let written = control_with_gain(control, g);
            assert_eq!(Gain::from_u8(written & 0b00110000), Some(g));
        }
    }
}

#[test]
fn gain_unknown_codes_decode_to_none() {
    for bits in [0x01u8, 0x0F, 0x31, 0x40, 0xFF] {
        assert_eq!(Gain::from_u8(bits), None);
    }
}

#[test]
fn gain_multipliers() {
    assert_eq!(Gain::LOW.multiplier(), 1);
    assert_eq!(Gain::MED.multiplier(), 25);
    assert_eq!(Gain::HIGH.multiplier(), 428);
    assert_eq!(Gain::MAX.multiplier(), 9876);
}

#[test]
fn gain_labels() {
    assert_eq!(Gain::LOW.describe(), "LOW (1x)");
    assert_eq!(Gain::MED.describe(), "MED (25x)");
    assert_eq!(Gain::HIGH.describe(), "HIGH (428x)");
    assert_eq!(Gain::MAX.describe(), "MAX (9876x)");
}

#[test]
fn integration_codes_round_trip() {
    let variants = [
        IntegrationTime::Time100ms,
        IntegrationTime::Time200ms,
        IntegrationTime::Time300ms,
        IntegrationTime::Time400ms,
        IntegrationTime::Time500ms,
        IntegrationTime::Time600ms,
    ];
    for (code, t) in variants.iter().enumerate() {
        assert_eq!(t.bits(), code as u8);
        assert_eq!(IntegrationTime::from_u8(code as u8), Some(*t));
    }
}

#[test]
fn integration_round_trips_through_control_field() {
    let variants = [
        IntegrationTime::Time100ms,
        IntegrationTime::Time200ms,
        IntegrationTime::Time300ms,
        IntegrationTime::Time400ms,
        IntegrationTime::Time500ms,
        IntegrationTime::Time600ms,
    ];
    for control in [0x00u8, 0xFF, 0b11111000, 0b01010101] {
        for t in variants.iter() {
            let written = control_with_itime(control, *t);
            assert_eq!(IntegrationTime::from_u8(written & 0b00000111), Some(*t));
        }
    }
}

#[test]
fn integration_unknown_codes_decode_to_none() {
    for bits in [0x06u8, 0x07, 0x10, 0xFF] {
        assert_eq!(IntegrationTime::from_u8(bits), None);
    }
}

#[test]
fn integration_durations_and_saturation_thresholds() {
    assert_eq!(IntegrationTime::Time100ms.atime_ms(), 100);
    assert_eq!(IntegrationTime::Time200ms.atime_ms(), 200);
    assert_eq!(IntegrationTime::Time300ms.atime_ms(), 300);
    assert_eq!(IntegrationTime::Time400ms.atime_ms(), 400);
    assert_eq!(IntegrationTime::Time500ms.atime_ms(), 500);
    assert_eq!(IntegrationTime::Time600ms.atime_ms(), 600);
    assert_eq!(IntegrationTime::Time100ms.max_count(), 0x8FFF);
    assert_eq!(IntegrationTime::Time200ms.max_count(), 0xFFFF);
    assert_eq!(IntegrationTime::Time600ms.max_count(), 0xFFFF);
}

#[test]
fn integration_labels() {
    assert_eq!(IntegrationTime::Time100ms.describe(), "100ms");
    assert_eq!(IntegrationTime::Time200ms.describe(), "200ms");
    assert_eq!(IntegrationTime::Time300ms.describe(), "300ms");
    assert_eq!(IntegrationTime::Time400ms.describe(), "400ms");
    assert_eq!(IntegrationTime::Time500ms.describe(), "500ms");
    assert_eq!(IntegrationTime::Time600ms.describe(), "600ms");
}

#[test]
fn control_updates_touch_only_their_field() {
    // Gain replacement keeps the integration-time bits and the reserved
    // bits; integration-time replacement keeps the gain bits.
    let control = 0b10101010u8;
    let with_gain = control_with_gain(control, Gain::MAX);
    assert_eq!(with_gain, 0b10111010);
    assert_eq!(with_gain & 0b11001111, control & 0b11001111);

    let with_itime = control_with_itime(control, IntegrationTime::Time600ms);
    assert_eq!(with_itime, 0b10101101);
    assert_eq!(with_itime & 0b11111000, control & 0b11111000);
}

#[test]
fn command_bytes_carry_the_command_bit() {
    assert_eq!(command_byte(0x00), 0xA0);
    assert_eq!(command_byte(0x01), 0xA1);
    assert_eq!(command_byte(0x12), 0xB2);
    assert_eq!(command_byte(0x14), 0xB4);
    assert_eq!(command_byte(0x16), 0xB6);
}

#[test]
fn error_labels() {
    assert_eq!(TSL2591Error::BusError.describe(), "i2c bus error");
    assert_eq!(
        TSL2591Error::DeviceNotFound.describe(),
        "Unable to find device TSL2591"
    );
    assert_eq!(
        TSL2591Error::OverflowError.describe(),
        "Overflow reading light channels"
    );
}

use tsl2591::bus::SimBus;
use tsl2591::config::{Gain, IntegrationTime};
use tsl2591::errors::TSL2591Error;
use tsl2591::sensor::{lux_reading, LuxReading, TSL2591Sensor};

/// Evaluate the illuminance formula on a gathered reading:
/// `cp = (atime_ms * again) / 408.0`, `lux1 = (chan0 - 1.64 * chan0) / cp`,
/// `lux2 = (0.59 * chan0 - 0.86 * chan1) / cp`, result `max(lux1, lux2)`.
fn lux_value(reading: &LuxReading) -> f32 {
    let atime = reading.atime_ms as f32;
    let again = reading.again as f32;
    let chan0 = reading.chan0 as f32;
    let chan1 = reading.chan1 as f32;
    let cp = (atime * again) / 408.0;
    let lux1 = (chan0 - (1.64 * chan0)) / cp;
    let lux2 = ((0.59 * chan0) - (0.86 * chan1)) / cp;
    lux1.max(lux2)
}

/// A freshly constructed driver over a healthy simulated device.
fn fresh_sensor() -> TSL2591Sensor {
    match TSL2591Sensor::new(SimBus::new(0x50)) {
        Ok(sensor) => sensor,
        Err(_) => panic!("construction over a healthy device must succeed"),
    }
}

/// Store a 16-bit channel count little-endian in the device registers.
fn set_channel(sensor: &mut TSL2591Sensor, low_register: u8, value: u16) {
    sensor.bus.set_reg(low_register, (value & 0xFF) as u8);
    sensor.bus.set_reg(low_register + 1, (value >> 8) as u8);
}

#[test]
fn construction_configures_and_enables() {
    let sensor = fresh_sensor();
    assert_eq!(sensor.gain, Gain::MED);
    assert_eq!(sensor.integration_time, IntegrationTime::Time100ms);
    // Control register: gain MED (0x10) and integration code 0.
    assert_eq!(sensor.bus.regs[0x01], 0x10);
    // Enable register: POWERON | AEN | AIEN | NPIEN.
    assert_eq!(sensor.bus.regs[0x00], 0x93);
    assert_eq!(sensor.get_gain(), Ok(Gain::MED));
    assert_eq!(sensor.get_integration_time(), Ok(IntegrationTime::Time100ms));
}

#[test]
fn construction_rejects_wrong_device_id() {
    for id in [0x00u8, 0x49, 0x51, 0xFF] {
        let result = TSL2591Sensor::new(SimBus::new(id));
        assert!(matches!(result, Err(TSL2591Error::DeviceNotFound)));
    }
}

#[test]
fn construction_fails_on_faulty_bus() {
    let result = TSL2591Sensor::new(SimBus::new_faulty());
    assert!(matches!(result, Err(TSL2591Error::BusError)));
}

#[test]
fn set_gain_updates_field_and_memory() {
    let mut sensor = fresh_sensor();
    assert_eq!(sensor.set_gain(Gain::HIGH), Ok(()));
    assert_eq!(sensor.gain, Gain::HIGH);
    assert_eq!(sensor.bus.regs[0x01] & 0b00110000, 0x20);
    assert_eq!(sensor.get_gain(), Ok(Gain::HIGH));
}

#[test]
fn set_integration_time_updates_field_and_memory() {
    let mut sensor = fresh_sensor();
    assert_eq!(
        sensor.set_integration_time(IntegrationTime::Time400ms),
        Ok(())
    );
    assert_eq!(sensor.integration_time, IntegrationTime::Time400ms);
    assert_eq!(sensor.bus.regs[0x01] & 0b00000111, 0x03);
    assert_eq!(
        sensor.get_integration_time(),
        Ok(IntegrationTime::Time400ms)
    );
}

#[test]
fn reconfiguration_touches_only_its_own_field() {
    // Read-modify-write isolation against the simulated control register.
    let mut sensor = fresh_sensor();
    assert_eq!(
        sensor.set_integration_time(IntegrationTime::Time400ms),
        Ok(())
    );
    let before = sensor.bus.regs[0x01];
    assert_eq!(sensor.set_gain(Gain::MAX), Ok(()));
    let after_gain = sensor.bus.regs[0x01];
    // The integration-time bits and the reserved bits survived.
    assert_eq!(after_gain & 0b11001111, before & 0b11001111);
    assert_eq!(after_gain & 0b00110000, 0x30);

    assert_eq!(
        sensor.set_integration_time(IntegrationTime::Time200ms),
        Ok(())
    );
    let after_itime = sensor.bus.regs[0x01];
    // The gain bits and the reserved bits survived.
    assert_eq!(after_itime & 0b11111000, after_gain & 0b11111000);
    assert_eq!(after_itime & 0b00000111, 0x01);
}

#[test]
fn reserved_control_bits_survive_reconfiguration() {
    let mut sensor = fresh_sensor();
    // The device shows reserved bits set; reconfiguration must keep them.
    sensor.bus.set_reg(0x01, 0xFF);
    assert_eq!(sensor.set_gain(Gain::LOW), Ok(()));
    assert_eq!(sensor.bus.regs[0x01], 0b11001111);
    assert_eq!(sensor.set_integration_time(IntegrationTime::Time100ms), Ok(()));
    assert_eq!(sensor.bus.regs[0x01], 0b11001000);
}

#[test]
fn enable_and_disable_write_the_power_register() {
    let mut sensor = fresh_sensor();
    assert_eq!(sensor.disable(), Ok(()));
    assert_eq!(sensor.bus.regs[0x00], 0x00);
    // Idempotent.
    assert_eq!(sensor.disable(), Ok(()));
    assert_eq!(sensor.bus.regs[0x00], 0x00);
    assert_eq!(sensor.enable(), Ok(()));
    assert_eq!(sensor.bus.regs[0x00], 0x93);
}

#[test]
fn measurements_combine_the_channel_registers() {
    let mut sensor = fresh_sensor();
    set_channel(&mut sensor, 0x14, 0x1234);
    set_channel(&mut sensor, 0x16, 0xABCD);
    assert_eq!(sensor.full_spectrum(), Ok(0xABCD_1234));
    assert_eq!(sensor.infrared(), Ok(0xABCD));
    // Visible light is the combined count minus the infrared channel.
    assert_eq!(sensor.visible(), Ok(0xABCD_1234 - 0xABCD));
    let full = sensor.full_spectrum().unwrap();
    let infrared = sensor.infrared().unwrap() as u32;
    assert_eq!(sensor.visible(), Ok(full - infrared));
}

#[test]
fn measurements_still_run_after_disable() {
    // The driver performs no enabled-state check: a powered-down device
    // still answers every measurement transaction.
    let mut sensor = fresh_sensor();
    set_channel(&mut sensor, 0x14, 500);
    set_channel(&mut sensor, 0x16, 200);
    assert_eq!(sensor.disable(), Ok(()));
    assert_eq!(sensor.bus.regs[0x00], 0x00);
    assert_eq!(sensor.full_spectrum(), Ok((200 << 16) | 500));
    assert_eq!(sensor.infrared(), Ok(200));
    assert_eq!(sensor.visible(), Ok(((200u32 << 16) | 500) - 200));
    assert!(sensor.lux().is_ok());
    // The power register was not touched by any of the reads.
    assert_eq!(sensor.bus.regs[0x00], 0x00);
}

#[test]
fn lux_gathers_the_formula_inputs() {
    let mut sensor = fresh_sensor();
    assert_eq!(
        sensor.set_integration_time(IntegrationTime::Time200ms),
        Ok(())
    );
    set_channel(&mut sensor, 0x14, 100);
    set_channel(&mut sensor, 0x16, 10);
    let reading = sensor.lux().unwrap();
    assert_eq!(
        reading,
        LuxReading { chan0: 100, chan1: 10, atime_ms: 200, again: 25 }
    );
    // cp = (200 * 25) / 408 = 12.254902; lux1 = (100 - 164) / cp = -5.2224;
    // lux2 = (59 - 8.6) / cp = 4.11264; the result is the larger of the two.
    let value = lux_value(&reading);
    assert!((value - 4.1129).abs() < 1e-3);
}

#[test]
fn lux_with_default_configuration() {
    let mut sensor = fresh_sensor();
    set_channel(&mut sensor, 0x14, 100);
    set_channel(&mut sensor, 0x16, 10);
    let reading = sensor.lux().unwrap();
    assert_eq!(
        reading,
        LuxReading { chan0: 100, chan1: 10, atime_ms: 100, again: 25 }
    );
    // cp = (100 * 25) / 408 = 6.127451; lux2 = (59 - 8.6) / cp = 8.22528.
    let value = lux_value(&reading);
    assert!((value - 8.2253).abs() < 1e-3);
}

#[test]
fn lux_overflows_exactly_at_the_saturation_threshold() {
    let mut sensor = fresh_sensor();
    // 100ms integration time: the ADC saturates at 0x8FFF.
    set_channel(&mut sensor, 0x14, 0x8FFF);
    set_channel(&mut sensor, 0x16, 0);
    assert_eq!(sensor.lux(), Err(TSL2591Error::OverflowError));
    set_channel(&mut sensor, 0x14, 0x8FFE);
    assert!(sensor.lux().is_ok());
    // Saturation of channel 1 alone overflows too.
    set_channel(&mut sensor, 0x16, 0x8FFF);
    assert_eq!(sensor.lux(), Err(TSL2591Error::OverflowError));
    set_channel(&mut sensor, 0x16, 0);

    // Longer integration times saturate only at 0xFFFF.
    assert_eq!(
        sensor.set_integration_time(IntegrationTime::Time300ms),
        Ok(())
    );
    set_channel(&mut sensor, 0x14, 0x8FFF);
    assert!(sensor.lux().is_ok());
    set_channel(&mut sensor, 0x14, 0xFFFF);
    assert_eq!(sensor.lux(), Err(TSL2591Error::OverflowError));
}

#[test]
fn simulated_bus_decodes_framed_commands() {
    let mut bus = SimBus::new(0x50);
    // Command 0xB2 addresses the identity register 0x12.
    assert_eq!(bus.read_byte(0xB2), Ok(0x50));
    assert_eq!(bus.write_byte(0xA1, 0xAB), Ok(()));
    assert_eq!(bus.read_byte(0xA1), Ok(0xAB));
    // Word reads assemble little-endian from two adjacent registers.
    bus.set_reg(0x14, 0x34);
    bus.set_reg(0x15, 0x12);
    assert_eq!(bus.read_word(0xB4), Ok(0x1234));
    let faulty = SimBus::new_faulty();
    assert_eq!(faulty.read_byte(0xA0), Err(TSL2591Error::BusError));
}

#[test]
fn lux_reading_from_plain_counts() {
    assert_eq!(
        lux_reading(5, 3, Gain::LOW, IntegrationTime::Time600ms),
        Ok(LuxReading { chan0: 5, chan1: 3, atime_ms: 600, again: 1 })
    );
    assert_eq!(
        lux_reading(0x8FFF, 0, Gain::MED, IntegrationTime::Time100ms),
        Err(TSL2591Error::OverflowError)
    );
    // The same counts pass under a longer integration time.
    assert_eq!(
        lux_reading(0x8FFF, 0, Gain::MED, IntegrationTime::Time200ms),
        Ok(LuxReading { chan0: 0x8FFF, chan1: 0, atime_ms: 200, again: 25 })
    );
}

#[test]
fn bus_failures_reach_the_caller_unchanged() {
    let mut sensor = fresh_sensor();
    sensor.bus.faulty = true;
    assert_eq!(sensor.get_gain(), Err(TSL2591Error::BusError));
    assert_eq!(sensor.get_integration_time(), Err(TSL2591Error::BusError));
    assert_eq!(sensor.full_spectrum(), Err(TSL2591Error::BusError));
    assert_eq!(sensor.infrared(), Err(TSL2591Error::BusError));
    assert_eq!(sensor.visible(), Err(TSL2591Error::BusError));
    assert_eq!(sensor.lux(), Err(TSL2591Error::BusError));
    assert_eq!(sensor.enable(), Err(TSL2591Error::BusError));
    assert_eq!(sensor.disable(), Err(TSL2591Error::BusError));
    // A failed reconfiguration leaves the stored settings untouched.
    assert_eq!(sensor.set_gain(Gain::MAX), Err(TSL2591Error::BusError));
    assert_eq!(sensor.gain, Gain::MED);
    assert_eq!(
        sensor.set_integration_time(IntegrationTime::Time600ms),
        Err(TSL2591Error::BusError)
    );
    assert_eq!(sensor.integration_time, IntegrationTime::Time100ms);
}

//! The sensor driver: construction with identity check, configuration of
//! gain and integration time through read-modify-write of the control
//! register, power state, and the measurement operations.
//!
//! The driver owns its bus for its whole lifetime and performs one or more
//! transactions per operation; every transport failure propagates to the
//! caller unchanged, wrapped as `BusError`, with no retry anywhere.  The
//! in-memory gain and integration time always reflect the last value
//! successfully written to the control register: both setters update the
//! stored setting only after the register write has succeeded.
//!
//! No operation checks the power state first: a disabled device still
//! accepts every measurement transaction, deliberately, as the hardware
//! does.

use vstd::prelude::*;

use crate::bus::{word_le, SimBus};
use crate::config::{
    gain_bits, gain_multiplier, itime_bits, lemma_gain_bits_round_trip, lemma_gain_round_trip,
    lemma_gain_update_isolated, lemma_itime_bits_round_trip, lemma_itime_round_trip,
    lemma_itime_update_isolated, spec_atime_ms, spec_control_with_gain, spec_control_with_itime,
    spec_max_count, control_with_gain, control_with_itime, Gain, IntegrationTime,
    GAIN_FIELD_MASK, ITIME_FIELD_MASK,
};
use crate::errors::TSL2591Error;
use crate::registers::{
    command_byte, lemma_command_byte_addresses, DEVICE_ID_VALUE, ENABLE_AEN, ENABLE_AIEN,
    ENABLE_ALL, ENABLE_NPIEN, ENABLE_POWEROFF, ENABLE_POWERON, REGISTER_CHAN0_LOW,
    REGISTER_CHAN1_LOW, REGISTER_CONTROL, REGISTER_DEVICE_ID, REGISTER_ENABLE,
};

verus! {

/// The raw inputs of the lux formula, gathered by a successful,
/// non-saturated measurement: the two channel counts, the integration
/// duration in milliseconds and the gain multiplier.
///
/// The illuminance itself is a floating-point combination of these four
/// values, which the caller evaluates:
/// `cp = (atime_ms * again) / 408.0`,
/// `lux1 = (chan0 - 1.64 * chan0) / cp`,
/// `lux2 = (0.59 * chan0 - 0.86 * chan1) / cp`, result `max(lux1, lux2)`.
#[derive(Clone, Copy, Debug, PartialEq, Eq, Structural)]
pub struct LuxReading {
    /// Channel 0: visible + infrared count.
    pub chan0: u16,
    /// Channel 1: infrared-only count.
    pub chan1: u16,
    /// Integration duration in milliseconds.
    pub atime_ms: u32,
    /// Gain multiplier.
    pub again: u32,
}

/// The 32-bit combined raw count: channel 1 in the high half-word,
/// channel 0 in the low one.
pub open spec fn spec_full_spectrum(c0: u16, c1: u16) -> u32 {
    (c1 * 0x10000 + c0) as u32
}

/// The visible-light count: the combined raw count minus the infrared
/// channel.
pub open spec fn spec_visible(c0: u16, c1: u16) -> u32 {
    (spec_full_spectrum(c0, c1) - c1) as u32
}

/// Gather the inputs of the lux formula from a pair of channel counts and
/// the configuration they were taken under.
///
/// Fails with `OverflowError` exactly when either count has reached the
/// saturation threshold of the integration time — the ADC is saturated
/// and no illuminance can be derived — and otherwise pairs the counts
/// with the integration duration and gain multiplier that scale them.
pub fn lux_reading(chan0: u16, chan1: u16, gain: Gain, integration_time: IntegrationTime) -> (r:
    Result<LuxReading, TSL2591Error>)
    ensures
        ({
            let m = spec_max_count(integration_time);
            if chan0 >= m || chan1 >= m {
                r == Err::<LuxReading, TSL2591Error>(TSL2591Error::OverflowError)
            } else {
                r == Ok::<LuxReading, TSL2591Error>(
                    (LuxReading {
                        chan0,
                        chan1,
                        atime_ms: spec_atime_ms(integration_time),
                        again: gain_multiplier(gain),
                    }),
                )
            }
        }),
{
    let max_counts = integration_time.max_count();
    if chan0 >= max_counts || chan1 >= max_counts {
        return Err(TSL2591Error::OverflowError);
    }
    let atime_ms = integration_time.atime_ms();
    let again = gain.multiplier();
    Ok(LuxReading { chan0, chan1, atime_ms, again })
}

/// A live driver over a device bus.
pub struct TSL2591Sensor {
    /// The exclusively owned device bus.
    pub bus: SimBus,
    /// The gain last written successfully to the control register.
    pub gain: Gain,
    /// The integration time last written successfully to the control
    /// register.
    pub integration_time: IntegrationTime,
}

impl TSL2591Sensor {
    /// The control-register byte on the device.
    pub open spec fn ctrl(&self) -> u8 {
        self.bus.reg(REGISTER_CONTROL as int)
    }

    /// The driver invariant: the bus is well formed and the gain and
    /// integration-time fields of the device's control register agree
    /// with the in-memory settings.
    pub open spec fn wf(&self) -> bool {
        &&& self.bus.wf()
        &&& self.ctrl() & GAIN_FIELD_MASK == gain_bits(self.gain)
        &&& self.ctrl() & ITIME_FIELD_MASK == itime_bits(self.integration_time)
    }

    /// The channel-0 count held in the device's channel registers.
    pub open spec fn spec_chan0(&self) -> u16 {
        word_le(
            self.bus.reg(REGISTER_CHAN0_LOW as int),
            self.bus.reg(REGISTER_CHAN0_LOW as int + 1),
        )
    }

    /// The channel-1 count held in the device's channel registers.
    pub open spec fn spec_chan1(&self) -> u16 {
        word_le(
            self.bus.reg(REGISTER_CHAN1_LOW as int),
            self.bus.reg(REGISTER_CHAN1_LOW as int + 1),
        )
    }

    /// Nothing observable distinguishes the two driver states: same
    /// settings, same registers, same bus health.
    pub open spec fn same_as(&self, other: &TSL2591Sensor) -> bool {
        &&& self.gain == other.gain
        &&& self.integration_time == other.integration_time
        &&& self.bus.faulty == other.bus.faulty
        &&& self.bus.regs@ == other.bus.regs@
    }

    /// Read one byte from the register at `address`, framed with the
    /// command bit.
    fn read_u8(&self, address: u8) -> (r: Result<u8, TSL2591Error>)
        requires
            self.bus.wf(),
            address < 0x20,
        ensures
            self.bus.faulty ==> r == Err::<u8, TSL2591Error>(TSL2591Error::BusError),
            !self.bus.faulty ==> r == Ok::<u8, TSL2591Error>(self.bus.reg(address as int)),
    {
        let command = command_byte(address);
        proof {
            lemma_command_byte_addresses(address);
        }
        self.bus.read_byte(command)
    }

    /// Write one byte to the register at `address`, framed with the
    /// command bit.
    fn write_u8(&mut self, address: u8, val: u8) -> (r: Result<(), TSL2591Error>)
        requires
            old(self).bus.wf(),
            address < 0x20,
        ensures
            final(self).bus.wf(),
            final(self).gain == old(self).gain,
            final(self).integration_time == old(self).integration_time,
            final(self).bus.faulty == old(self).bus.faulty,
            old(self).bus.faulty ==> r == Err::<(), TSL2591Error>(TSL2591Error::BusError)
                && final(self).bus.regs@ == old(self).bus.regs@,
            !old(self).bus.faulty ==> r == Ok::<(), TSL2591Error>(())
                && final(self).bus.regs@ == old(self).bus.regs@.update(address as int, val),
    {
        let command = command_byte(address);
        proof {
            lemma_command_byte_addresses(address);
        }
        let value = val & 0xFF;
        assert(val & 0xFF == val) by (bit_vector);
        self.bus.write_byte(command, value)
    }

    /// Read a 16-bit little-endian word starting at the register at
    /// `address`; the device auto-increments to the next register for the
    /// high byte.
    fn read_u16(&self, address: u8) -> (r: Result<u16, TSL2591Error>)
        requires
            self.bus.wf(),
            address < 0x1F,
        ensures
            self.bus.faulty ==> r == Err::<u16, TSL2591Error>(TSL2591Error::BusError),
            !self.bus.faulty ==> r == Ok::<u16, TSL2591Error>(
                word_le(self.bus.reg(address as int), self.bus.reg(address as int + 1)),
            ),
    {
        let command = command_byte(address);
        proof {
            lemma_command_byte_addresses(address);
        }
        self.bus.read_word(command)
    }

    /// Construct a driver over `bus`.
    ///
    /// The identity register must answer with the expected device id,
    /// else construction fails with `DeviceNotFound` and no handle is
    /// produced.  On success the device is configured with the default
    /// gain (`MED`) and integration time (100ms) and enabled; every other
    /// register bit is left as the device had it.
    pub fn new(bus: SimBus) -> (r: Result<TSL2591Sensor, TSL2591Error>)
        requires
            bus.wf(),
        ensures
            bus.faulty ==> r == Err::<TSL2591Sensor, TSL2591Error>(TSL2591Error::BusError),
            !bus.faulty && bus.reg(REGISTER_DEVICE_ID as int) != DEVICE_ID_VALUE ==> r == Err::<
                TSL2591Sensor,
                TSL2591Error,
            >(TSL2591Error::DeviceNotFound),
            !bus.faulty && bus.reg(REGISTER_DEVICE_ID as int) == DEVICE_ID_VALUE ==> (r matches Ok(
                s,
            ) && {
                &&& s.wf()
                &&& s.gain == Gain::MED
                &&& s.integration_time == IntegrationTime::Time100ms
                &&& !s.bus.faulty
                &&& s.bus.regs@ == spec_initialized_regs(bus.regs@)
            }),
    {
        let ghost orig = bus;
        let mut obj = TSL2591Sensor {
            bus,
            gain: Gain::MED,
            integration_time: IntegrationTime::Time100ms,
        };
        let id = match obj.read_u8(REGISTER_DEVICE_ID) {
            Ok(v) => v,
            Err(e) => {
                return Err(e);
            },
        };
        if id != DEVICE_ID_VALUE {
            return Err(TSL2591Error::DeviceNotFound);
        }
        if let Err(e) = obj.set_gain(Gain::MED) {
            return Err(e);
        }
        if let Err(e) = obj.set_integration_time(IntegrationTime::Time100ms) {
            return Err(e);
        }
        if let Err(e) = obj.enable() {
            return Err(e);
        }
        proof {
            lemma_gain_round_trip(orig.regs@[REGISTER_CONTROL as int], Gain::MED);
            let with_gain = spec_control_with_gain(
                orig.regs@[REGISTER_CONTROL as int],
                Gain::MED,
            );
            lemma_itime_round_trip(with_gain, IntegrationTime::Time100ms);
            lemma_itime_update_isolated(with_gain, IntegrationTime::Time100ms);
            assert(obj.bus.regs@ =~= spec_initialized_regs(orig.regs@));
        }
        Ok(obj)
    }

    /// Select a gain.
    ///
    /// The control register is read, the gain field replaced, and the
    /// result written back, so the integration-time field and the
    /// reserved bits survive; the in-memory gain is updated only once the
    /// write has succeeded.
    pub fn set_gain(&mut self, gain: Gain) -> (r: Result<(), TSL2591Error>)
        requires
            old(self).bus.wf(),
        ensures
            final(self).bus.wf(),
            final(self).bus.faulty == old(self).bus.faulty,
            final(self).integration_time == old(self).integration_time,
            old(self).bus.faulty ==> r == Err::<(), TSL2591Error>(TSL2591Error::BusError) && final(self).same_as(old(self)),
            !old(self).bus.faulty ==> r == Ok::<(), TSL2591Error>(()) && final(self).gain == gain
                && final(self).bus.regs@ == old(self).bus.regs@.update(
                REGISTER_CONTROL as int,
                spec_control_with_gain(old(self).ctrl(), gain),
            ),
            old(self).wf() && !old(self).bus.faulty ==> final(self).wf(),
    {
        let control = match self.read_u8(REGISTER_CONTROL) {
            Ok(v) => v,
            Err(e) => {
                return Err(e);
            },
        };
        let updated_control = control_with_gain(control, gain);
        if let Err(e) = self.write_u8(REGISTER_CONTROL, updated_control) {
            return Err(e);
        }
        self.gain = gain;
        proof {
            lemma_gain_round_trip(old(self).ctrl(), gain);
            lemma_gain_update_isolated(old(self).ctrl(), gain);
        }
        Ok(())
    }

    /// Select an integration time, by the same read-modify-write of the
    /// control register as `set_gain`, preserving the gain field and the
    /// reserved bits; the in-memory setting is updated only once the
    /// write has succeeded.
    pub fn set_integration_time(&mut self, integration_time: IntegrationTime) -> (r: Result<
        (),
        TSL2591Error,
    >)
        requires
            old(self).bus.wf(),
        ensures
            final(self).bus.wf(),
            final(self).bus.faulty == old(self).bus.faulty,
            final(self).gain == old(self).gain,
            old(self).bus.faulty ==> r == Err::<(), TSL2591Error>(TSL2591Error::BusError) && final(self).same_as(old(self)),
            !old(self).bus.faulty ==> r == Ok::<(), TSL2591Error>(()) && final(self).integration_time == integration_time && final(self).bus.regs@ == old(self).bus.regs@.update(
                REGISTER_CONTROL as int,
                spec_control_with_itime(old(self).ctrl(), integration_time),
            ),
            old(self).wf() && !old(self).bus.faulty ==> final(self).wf(),
    {
        let control = match self.read_u8(REGISTER_CONTROL) {
            Ok(v) => v,
            Err(e) => {
                return Err(e);
            },
        };
        let updated_control = control_with_itime(control, integration_time);
        if let Err(e) = self.write_u8(REGISTER_CONTROL, updated_control) {
            return Err(e);
        }
        self.integration_time = integration_time;
        proof {
            lemma_itime_round_trip(old(self).ctrl(), integration_time);
            lemma_itime_update_isolated(old(self).ctrl(), integration_time);
        }
        Ok(())
    }

    /// Read back the gain field of the control register and decode it.
    ///
    /// Under the driver invariant the device field always agrees with the
    /// in-memory setting, so this returns exactly the stored gain.
    pub fn get_gain(&self) -> (r: Result<Gain, TSL2591Error>)
        requires
            self.wf(),
        ensures
            self.bus.faulty ==> r == Err::<Gain, TSL2591Error>(TSL2591Error::BusError),
            !self.bus.faulty ==> r == Ok::<Gain, TSL2591Error>(self.gain),
    {
        let control = match self.read_u8(REGISTER_CONTROL) {
            Ok(v) => v,
            Err(e) => {
                return Err(e);
            },
        };
        proof {
            lemma_gain_bits_round_trip(self.gain);
        }
        match Gain::from_u8(control & GAIN_FIELD_MASK) {
            Some(g) => Ok(g),
            None => Err(TSL2591Error::BusError),  // unreachable under the invariant
        }
    }

    /// Read back the integration-time field of the control register and
    /// decode it.
    ///
    /// Under the driver invariant the device field always agrees with the
    /// in-memory setting, so this returns exactly the stored setting.
    pub fn get_integration_time(&self) -> (r: Result<IntegrationTime, TSL2591Error>)
        requires
            self.wf(),
        ensures
            self.bus.faulty ==> r == Err::<IntegrationTime, TSL2591Error>(TSL2591Error::BusError),
            !self.bus.faulty ==> r == Ok::<IntegrationTime, TSL2591Error>(self.integration_time),
    {
        let control = match self.read_u8(REGISTER_CONTROL) {
            Ok(v) => v,
            Err(e) => {
                return Err(e);
            },
        };
        proof {
            lemma_itime_bits_round_trip(self.integration_time);
        }
        match IntegrationTime::from_u8(control & ITIME_FIELD_MASK) {
            Some(t) => Ok(t),
            None => Err(TSL2591Error::BusError),  // unreachable under the invariant
        }
    }

    /// Power the device up with the ADC and both interrupt paths enabled
    /// (interrupts stay unused by this driver).
    pub fn enable(&mut self) -> (r: Result<(), TSL2591Error>)
        requires
            old(self).bus.wf(),
        ensures
            final(self).bus.wf(),
            final(self).bus.faulty == old(self).bus.faulty,
            final(self).gain == old(self).gain,
            final(self).integration_time == old(self).integration_time,
            old(self).bus.faulty ==> r == Err::<(), TSL2591Error>(TSL2591Error::BusError) && final(self).same_as(old(self)),
            !old(self).bus.faulty ==> r == Ok::<(), TSL2591Error>(()) && final(self).bus.regs@
                == old(self).bus.regs@.update(REGISTER_ENABLE as int, ENABLE_ALL),
            old(self).wf() && !old(self).bus.faulty ==> final(self).wf(),
    {
        let command = ENABLE_POWERON | ENABLE_AEN | ENABLE_AIEN | ENABLE_NPIEN;
        assert(0x01u8 | 0x02 | 0x10 | 0x80 == 0x93) by (bit_vector);
        self.write_u8(REGISTER_ENABLE, command)
    }

    /// Power the device fully down.  Idempotent; a disabled device still
    /// answers every transaction, so measurements stay possible.
    pub fn disable(&mut self) -> (r: Result<(), TSL2591Error>)
        requires
            old(self).bus.wf(),
        ensures
            final(self).bus.wf(),
            final(self).bus.faulty == old(self).bus.faulty,
            final(self).gain == old(self).gain,
            final(self).integration_time == old(self).integration_time,
            old(self).bus.faulty ==> r == Err::<(), TSL2591Error>(TSL2591Error::BusError) && final(self).same_as(old(self)),
            !old(self).bus.faulty ==> r == Ok::<(), TSL2591Error>(()) && final(self).bus.regs@
                == old(self).bus.regs@.update(REGISTER_ENABLE as int, ENABLE_POWEROFF),
            old(self).wf() && !old(self).bus.faulty ==> final(self).wf(),
    {
        self.write_u8(REGISTER_ENABLE, ENABLE_POWEROFF)
    }

    /// Read the two channel counters: channel 0 (visible + infrared),
    /// then channel 1 (infrared).  Two independent word transactions; no
    /// atomicity between them.
    fn raw_luminosity(&self) -> (r: Result<(u16, u16), TSL2591Error>)
        requires
            self.bus.wf(),
        ensures
            self.bus.faulty ==> r == Err::<(u16, u16), TSL2591Error>(TSL2591Error::BusError),
            !self.bus.faulty ==> r == Ok::<(u16, u16), TSL2591Error>(
                (self.spec_chan0(), self.spec_chan1()),
            ),
    {
        let channel0 = match self.read_u16(REGISTER_CHAN0_LOW) {
            Ok(v) => v,
            Err(e) => {
                return Err(e);
            },
        };
        let channel1 = match self.read_u16(REGISTER_CHAN1_LOW) {
            Ok(v) => v,
            Err(e) => {
                return Err(e);
            },
        };
        Ok((channel0, channel1))
    }

    /// Read the combined raw count: channel 1 in the high half-word,
    /// channel 0 in the low one.
    pub fn full_spectrum(&self) -> (r: Result<u32, TSL2591Error>)
        requires
            self.bus.wf(),
        ensures
            self.bus.faulty ==> r == Err::<u32, TSL2591Error>(TSL2591Error::BusError),
            !self.bus.faulty ==> r == Ok::<u32, TSL2591Error>(
                spec_full_spectrum(self.spec_chan0(), self.spec_chan1()),
            ),
    {
        let (chan0, chan1) = match self.raw_luminosity() {
            Ok(v) => v,
            Err(e) => {
                return Err(e);
            },
        };
        let full = ((chan1 as u32) << 16) | (chan0 as u32);
        assert(((chan1 as u32) << 16) | (chan0 as u32) == (chan1 * 0x10000 + chan0) as u32)
            by (bit_vector);
        Ok(full)
    }

    /// Read the infrared-only count: channel 1 as the device reports it.
    pub fn infrared(&self) -> (r: Result<u16, TSL2591Error>)
        requires
            self.bus.wf(),
        ensures
            self.bus.faulty ==> r == Err::<u16, TSL2591Error>(TSL2591Error::BusError),
            !self.bus.faulty ==> r == Ok::<u16, TSL2591Error>(self.spec_chan1()),
    {
        let (_, chan1) = match self.raw_luminosity() {
            Ok(v) => v,
            Err(e) => {
                return Err(e);
            },
        };
        Ok(chan1)
    }

    /// Read the visible-light count: the combined raw count minus the
    /// infrared channel.
    pub fn visible(&self) -> (r: Result<u32, TSL2591Error>)
        requires
            self.bus.wf(),
        ensures
            self.bus.faulty ==> r == Err::<u32, TSL2591Error>(TSL2591Error::BusError),
            !self.bus.faulty ==> r == Ok::<u32, TSL2591Error>(
                spec_visible(self.spec_chan0(), self.spec_chan1()),
            ),
    {
        let (chan0, chan1) = match self.raw_luminosity() {
            Ok(v) => v,
            Err(e) => {
                return Err(e);
            },
        };
        let full = ((chan1 as u32) << 16) | (chan0 as u32);
        assert(((chan1 as u32) << 16) | (chan0 as u32) == (chan1 * 0x10000 + chan0) as u32)
            by (bit_vector);
        Ok(full - (chan1 as u32))
    }

    /// Read the channels and gather the inputs of the lux formula.
    ///
    /// Fails with `OverflowError` exactly when either channel count has
    /// reached the saturation threshold of the current integration time:
    /// the ADC is saturated and no illuminance can be derived.  Otherwise
    /// the returned reading carries the channel counts together with the
    /// integration duration and gain multiplier that scale them.
    pub fn lux(&self) -> (r: Result<LuxReading, TSL2591Error>)
        requires
            self.bus.wf(),
        ensures
            self.bus.faulty ==> r == Err::<LuxReading, TSL2591Error>(TSL2591Error::BusError),
            !self.bus.faulty ==> ({
                let c0 = self.spec_chan0();
                let c1 = self.spec_chan1();
                let m = spec_max_count(self.integration_time);
                if c0 >= m || c1 >= m {
                    r == Err::<LuxReading, TSL2591Error>(TSL2591Error::OverflowError)
                } else {
                    r == Ok::<LuxReading, TSL2591Error>(
                        (LuxReading {
                            chan0: c0,
                            chan1: c1,
                            atime_ms: spec_atime_ms(self.integration_time),
                            again: gain_multiplier(self.gain),
                        }),
                    )
                }
            }),
    {
        let (chan0, chan1) = match self.raw_luminosity() {
            Ok(v) => v,
            Err(e) => {
                return Err(e);
            },
        };
        lux_reading(chan0, chan1, self.gain, self.integration_time)
    }
}

/// The register file after construction: the control register rewritten
/// with the default gain and then the default integration time, the
/// enable register set to full power; everything else untouched.
pub open spec fn spec_initialized_regs(regs: Seq<u8>) -> Seq<u8> {
    let with_gain = spec_control_with_gain(regs[REGISTER_CONTROL as int], Gain::MED);
    let with_itime = spec_control_with_itime(with_gain, IntegrationTime::Time100ms);
    regs.update(REGISTER_CONTROL as int, with_itime).update(REGISTER_ENABLE as int, ENABLE_ALL)
}

/// The visible-light count is exactly the combined raw count minus the
/// infrared channel, for every channel pair: the subtraction never
/// underflows, since the infrared count never exceeds the combined count
/// it is embedded in.
pub proof fn lemma_visible_is_full_minus_infrared(c0: u16, c1: u16)
    ensures
        c1 <= spec_full_spectrum(c0, c1),
        spec_visible(c0, c1) == spec_full_spectrum(c0, c1) - c1,
{
}

} // verus!

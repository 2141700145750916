//! Register map and command-byte framing.
//!
//! Every transaction with the device is framed with a command byte: the
//! fixed command bit `0xA0` OR'd into the 5-bit register address, masked to
//! 8 bits.  The device decodes the low five bits of the command byte back
//! into the register address.

use vstd::prelude::*;

verus! {

/// Bus address of the device, bound by the transport at construction time.
pub const DEVICE_ADDRESS: u16 = 0x29;

/// Fixed command bit OR'd into a register address to form a command byte.
pub const COMMAND_BIT: u8 = 0xA0;

/// Power-state register.
pub const REGISTER_ENABLE: u8 = 0x00;
/// Control register holding the gain and integration-time bit fields.
pub const REGISTER_CONTROL: u8 = 0x01;
/// Identity register; reads as `DEVICE_ID_VALUE` on a present device.
pub const REGISTER_DEVICE_ID: u8 = 0x12;
/// Low byte of the channel-0 (visible + infrared) count.
pub const REGISTER_CHAN0_LOW: u8 = 0x14;
/// Low byte of the channel-1 (infrared) count.
pub const REGISTER_CHAN1_LOW: u8 = 0x16;

/// Value the identity register answers with on a present device.
pub const DEVICE_ID_VALUE: u8 = 0x50;

/// Power on the oscillator.
pub const ENABLE_POWERON: u8 = 0x01;
/// Enable the ALS ADC.
pub const ENABLE_AEN: u8 = 0x02;
/// Enable the ALS interrupt.
pub const ENABLE_AIEN: u8 = 0x10;
/// Enable the no-persist interrupt.
pub const ENABLE_NPIEN: u8 = 0x80;
/// Full power-down.
pub const ENABLE_POWEROFF: u8 = 0x00;
/// All enable flags combined: POWERON | AEN | AIEN | NPIEN.
pub const ENABLE_ALL: u8 = 0x93;

/// The command byte that addresses `register`: the command bit OR'd in,
/// masked to 8 bits.
pub open spec fn spec_command_byte(register: u8) -> u8 {
    (COMMAND_BIT | register) & 0xFF
}

/// Frame a register address as a bus command byte.
pub fn command_byte(register: u8) -> (r: u8)
    ensures
        r == spec_command_byte(register),
{
    (COMMAND_BIT | register) & 0xFF
}

/// The low five bits of a command byte framed from a 5-bit register
/// address give that address back: the command bit does not disturb the
/// address field.
pub proof fn lemma_command_byte_addresses(register: u8)
    requires
        register < 0x20,
    ensures
        spec_command_byte(register) & 0x1F == register,
        spec_command_byte(register) == COMMAND_BIT | register,
{
    assert(register < 0x20 ==> ((0xA0u8 | register) & 0xFF) & 0x1F == register) by (bit_vector);
    assert(((0xA0u8 | register) & 0xFF) == 0xA0u8 | register) by (bit_vector);
}

} // verus!

//! A register-level model of the device bus.
//!
//! The driver is verified against this model: a file of 32 byte-wide
//! registers, one per 5-bit register address, addressed through framed
//! command bytes exactly as the hardware is.  A bus can be marked faulty,
//! in which case every transaction fails with `BusError` and writes leave
//! the registers untouched — the model of an unreachable or misbehaving
//! transport.

use vstd::prelude::*;

use crate::errors::TSL2591Error;

verus! {

/// Number of modelled device registers: one per 5-bit register address.
pub const REGISTER_COUNT: usize = 32;

/// A simulated register-addressable device bus.
pub struct SimBus {
    /// The device registers, indexed by register address.
    pub regs: Vec<u8>,
    /// When set, every transaction fails and nothing is written.
    pub faulty: bool,
}

/// A 16-bit word assembled little-endian from two register bytes.
pub open spec fn word_le(lo: u8, hi: u8) -> u16 {
    (lo + hi * 0x100) as u16
}

impl SimBus {
    /// The bus holds one byte for each of the 32 register addresses.
    pub open spec fn wf(&self) -> bool {
        self.regs@.len() == REGISTER_COUNT
    }

    /// The byte stored at register address `addr`.
    pub open spec fn reg(&self, addr: int) -> u8 {
        self.regs@[addr]
    }

    /// A healthy bus over a device whose identity register answers
    /// `device_id` and whose other registers read zero.
    pub fn new(device_id: u8) -> (r: SimBus)
        ensures
            r.wf(),
            !r.faulty,
            r.reg(crate::registers::REGISTER_DEVICE_ID as int) == device_id,
            forall|a: int|
                0 <= a < REGISTER_COUNT && a != crate::registers::REGISTER_DEVICE_ID as int
                    ==> r.reg(a) == 0,
    {
        let mut regs: Vec<u8> = Vec::new();
        let mut i: usize = 0;
        while i < REGISTER_COUNT
            invariant
                i <= REGISTER_COUNT,
                regs@.len() == i,
                forall|a: int| 0 <= a < i ==> regs@[a] == 0,
            decreases REGISTER_COUNT - i,
        {
            regs.push(0);
            i = i + 1;
        }
        let mut bus = SimBus { regs, faulty: false };
        bus.regs.set(crate::registers::REGISTER_DEVICE_ID as usize, device_id);
        bus
    }

    /// A bus on which every transaction fails.
    pub fn new_faulty() -> (r: SimBus)
        ensures
            r.wf(),
            r.faulty,
    {
        let mut bus = SimBus::new(0);
        bus.faulty = true;
        bus
    }

    /// Store `val` at register address `addr`, bypassing the transaction
    /// path: this models the device itself changing state, as the light
    /// level does for the channel-count registers.
    pub fn set_reg(&mut self, addr: u8, val: u8)
        requires
            old(self).wf(),
            addr < REGISTER_COUNT,
        ensures
            final(self).wf(),
            final(self).faulty == old(self).faulty,
            final(self).regs@ == old(self).regs@.update(addr as int, val),
    {
        self.regs.set(addr as usize, val);
    }

    /// Perform a single-byte read transaction: the low five bits of the
    /// command byte select the register whose byte is returned.
    pub fn read_byte(&self, command: u8) -> (r: Result<u8, TSL2591Error>)
        requires
            self.wf(),
        ensures
            self.faulty ==> r == Err::<u8, TSL2591Error>(TSL2591Error::BusError),
            !self.faulty ==> r == Ok::<u8, TSL2591Error>(self.reg((command & 0x1F) as int)),
    {
        if self.faulty {
            return Err(TSL2591Error::BusError);
        }
        let idx = (command & 0x1F) as usize;
        assert(command & 0x1F < 32) by (bit_vector);
        Ok(self.regs[idx])
    }

    /// Perform a single-byte write transaction: the low five bits of the
    /// command byte select the register that receives `val`.
    pub fn write_byte(&mut self, command: u8, val: u8) -> (r: Result<(), TSL2591Error>)
        requires
            old(self).wf(),
        ensures
            final(self).wf(),
            final(self).faulty == old(self).faulty,
            old(self).faulty ==> r == Err::<(), TSL2591Error>(TSL2591Error::BusError)
                && final(self).regs@ == old(self).regs@,
            !old(self).faulty ==> r == Ok::<(), TSL2591Error>(())
                && final(self).regs@ == old(self).regs@.update((command & 0x1F) as int, val),
    {
        if self.faulty {
            return Err(TSL2591Error::BusError);
        }
        let idx = (command & 0x1F) as usize;
        assert(command & 0x1F < 32) by (bit_vector);
        self.regs.set(idx, val);
        Ok(())
    }

    /// Perform a 16-bit little-endian word read transaction: the low byte
    /// comes from the addressed register, the high byte from the next one
    /// (the device auto-increments the register address).
    pub fn read_word(&self, command: u8) -> (r: Result<u16, TSL2591Error>)
        requires
            self.wf(),
            command & 0x1F < 0x1F,
        ensures
            self.faulty ==> r == Err::<u16, TSL2591Error>(TSL2591Error::BusError),
            !self.faulty ==> r == Ok::<u16, TSL2591Error>(
                word_le(self.reg((command & 0x1F) as int), self.reg((command & 0x1F) + 1)),
            ),
    {
        if self.faulty {
            return Err(TSL2591Error::BusError);
        }
        let idx = (command & 0x1F) as usize;
        assert(command & 0x1F < 32) by (bit_vector);
        let lo = self.regs[idx];
        let hi = self.regs[idx + 1];
        let word = (lo as u16) | ((hi as u16) << 8);
        assert((lo as u16) | ((hi as u16) << 8) == lo + hi * 0x100) by (bit_vector);
        Ok(word)
    }
}

} // verus!

use vstd::prelude::*;

use crate::display::Display;
use crate::ram::RAM;

verus! {

/// Connects the processor to memory and to the screen.
pub struct Bus {
    pub ram: RAM,
    pub display: Display,
}

impl Bus {
    /// The byte stored at `address`.
    pub fn read(&self, address: usize) -> (value: u8)
        requires
            address < 4096,
        ensures
            value == self.ram.memory[address as int],
    {
        self.ram.memory[address]
    }

    /// Stores `value` at `address`; nothing else changes.
    pub fn write(&mut self, address: usize, value: u8)
        requires
            address < 4096,
        ensures
            final(self).ram.memory@ == old(self).ram.memory@.update(address as int, value),
            final(self).ram.stack == old(self).ram.stack,
            final(self).display == old(self).display,
    {
        self.ram.memory[address] = value;
    }
}

} // verus!

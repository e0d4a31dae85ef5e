//! Register access primitive: 32-bit registers found by an absolute address.
//!
//! [`RegisterFile`] is a backing store that stands for a register space. Every
//! address holds a word; an address that was never written holds zero.

use std::collections::HashMap;
use vstd::prelude::*;

verus! {

broadcast use vstd::std_specs::hash::group_hash_axioms;

/// The word that a register space holds at `addr`: the word last written
/// there, or zero where nothing was written.
pub open spec fn word_at(cells: Map<u32, u32>, addr: u32) -> u32 {
    if cells.contains_key(addr) {
        cells[addr]
    } else {
        0
    }
}

/// A register space of 32-bit words, keyed by absolute address.
pub struct RegisterFile {
    cells: HashMap<u32, u32>,
}

impl View for RegisterFile {
    type V = Map<u32, u32>;

    closed spec fn view(&self) -> Map<u32, u32> {
        self.cells@
    }
}

impl RegisterFile {
    /// A register space in which every register holds zero.
    pub fn new() -> (regs: RegisterFile)
        ensures
            regs@ == Map::<u32, u32>::empty(),
    {
        RegisterFile { cells: HashMap::new() }
    }

    /// Reads the register at the absolute address `addr`.
    pub fn xil_in32(&self, addr: u32) -> (value: u32)
        ensures
            value == word_at(self@, addr),
    {
        match self.cells.get(&addr) {
            Some(word) => *word,
            None => 0,
        }
    }

    /// Writes `value` to the register at the absolute address `addr` and
    /// leaves every other register as it was.
    pub fn xil_out32(&mut self, addr: u32, value: u32)
        ensures
            final(self)@ == old(self)@.insert(addr, value),
    {
        self.cells.insert(addr, value);
    }

    /// Reads the register that lies `offset` bytes above `base_addr`.
    pub fn read_reg(&self, base_addr: u32, offset: u32) -> (value: u32)
        requires
            base_addr + offset <= u32::MAX,
        ensures
            value == word_at(self@, (base_addr + offset) as u32),
    {
        self.xil_in32(base_addr + offset)
    }

    /// Writes `data` to the register that lies `offset` bytes above
    /// `base_addr` and leaves every other register as it was.
    pub fn write_reg(&mut self, base_addr: u32, offset: u32, data: u32)
        requires
            base_addr + offset <= u32::MAX,
        ensures
            final(self)@ == old(self)@.insert((base_addr + offset) as u32, data),
    {
        self.xil_out32(base_addr + offset, data)
    }
}

} // verus!

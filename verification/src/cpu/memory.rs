//! The memory bus: what the processor asks of the memory it drives.
//!
//! The processor sees a byte-addressable space of 65536 cells and asks two
//! things of it: to read the byte at an address, and to write a byte to an
//! address. A write is visible to every later read of that address and
//! changes no other cell. `FlatMemory` is the plain bus with no banking and
//! no devices behind it.

use vstd::prelude::*;

verus! {

/// The number of cells that a 16-bit address can name.
pub const ADDRESS_SPACE: usize = 0x10000;

pub trait MemoryBus {
    /// The byte at each address, in address order.
    spec fn contents(&self) -> Seq<u8>;

    /// Every 16-bit address names a cell.
    proof fn lemma_contents_len(&self)
        ensures
            self.contents().len() == ADDRESS_SPACE,
    ;

    fn read_byte(&self, address: u16) -> (value: u8)
        ensures
            value == self.contents()[address as int],
    ;

    fn write_byte(&mut self, address: u16, value: u8)
        ensures
            final(self).contents() == old(self).contents().update(address as int, value),
    ;
}

/// A bus that is 65536 bytes of plain memory.
pub struct FlatMemory {
    bytes: [u8; 0x10000],
}

impl FlatMemory {
    /// A memory with every cell zero.
    pub fn new() -> (memory: FlatMemory)
        ensures
            memory.contents() == Seq::new(ADDRESS_SPACE as nat, |address: int| 0u8),
    {
        let memory = FlatMemory { bytes: [0u8; 0x10000] };
        assert(memory.contents() =~= Seq::new(ADDRESS_SPACE as nat, |address: int| 0u8));
        memory
    }
}

impl MemoryBus for FlatMemory {
    closed spec fn contents(&self) -> Seq<u8> {
        self.bytes@
    }

    proof fn lemma_contents_len(&self) {
    }

    fn read_byte(&self, address: u16) -> (value: u8) {
        self.bytes[address as usize]
    }

    fn write_byte(&mut self, address: u16, value: u8) {
        self.bytes[address as usize] = value;
    }
}

} // verus!

use vstd::prelude::*;

verus! {

/// Number of addressable bytes: every 16-bit address has a byte behind it.
pub const MEMORY_SIZE: usize = 0x10000;

/// A flat byte store over the whole 16-bit address space.
pub struct MemoryBus {
    pub memory: [u8; MEMORY_SIZE],
}

impl View for MemoryBus {
    type V = Seq<u8>;

    open spec fn view(&self) -> Seq<u8> {
        self.memory@
    }
}

impl MemoryBus {
    /// A store with every byte zero.
    pub fn new() -> (r: MemoryBus)
        ensures
            r@.len() == MEMORY_SIZE,
            forall|i: int| 0 <= i < MEMORY_SIZE ==> r@[i] == 0,
    {
        MemoryBus { memory: [0u8; MEMORY_SIZE] }
    }

    /// The byte stored at `address`.
    pub fn read_byte(&self, address: u16) -> (r: u8)
        ensures
            r == self@[address as int],
    {
        self.memory[address as usize]
    }

    /// Stores `value` at `address`; no other byte changes.
    pub fn write_byte(&mut self, address: u16, value: u8)
        ensures
            final(self)@ == old(self)@.update(address as int, value),
    {
        self.memory[address as usize] = value;
    }
}

impl Default for MemoryBus {
    fn default() -> (r: MemoryBus)
        ensures
            r@.len() == MEMORY_SIZE,
            forall|i: int| 0 <= i < MEMORY_SIZE ==> r@[i] == 0,
    {
        MemoryBus::new()
    }
}

} // verus!

use vstd::prelude::*;

verus! {

/// Number of bytes of addressable memory.
pub const MEMORY_SIZE: usize = 4096;

/// Number of return addresses the call stack can hold.
pub const STACK_SIZE: usize = 16;

/// Main memory and the call stack of the machine.
pub struct RAM {
    pub memory: [u8; 4096],
    pub stack: [u16; 16],
}

impl RAM {
    /// Memory and stack with every cell zero.
    pub fn start() -> (ram: Self)
        ensures
            forall|i: int| 0 <= i < 4096 ==> ram.memory[i] == 0u8,
            forall|i: int| 0 <= i < 16 ==> ram.stack[i] == 0u16,
    {
        Self { memory: [0u8; 4096], stack: [0u16; 16] }
    }
}

} // verus!

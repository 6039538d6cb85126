//! Interrupt source bit patterns.

use vstd::prelude::*;

verus! {

/// Interrupt source selectable in the interrupt-enable register.
#[derive(Debug, Clone, Copy, PartialEq, Eq, Structural)]
pub enum InterruptType {
    /// A new sensor sample is ready.
    DataReady,
    /// The FIFO has overflowed.
    FifoOverflow,
}

impl InterruptType {
    /// Bit pattern of this source in the interrupt-enable register.
    pub open spec fn reg_bits_spec(self) -> u8 {
        match self {
            InterruptType::DataReady => 0x01,
            InterruptType::FifoOverflow => 0x10,
        }
    }

    /// Bit pattern of this source.
    pub fn reg_bits(self) -> (r: u8)
        ensures
            r == self.reg_bits_spec(),
    {
        match self {
            InterruptType::DataReady => 0x01,
            InterruptType::FifoOverflow => 0x10,
        }
    }
}

} // verus!

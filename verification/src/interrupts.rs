//! Interrupt vector numbers of the remapped legacy interrupt controllers.
use vstd::prelude::*;

verus! {

/// The first vector of the primary controller.
pub const PIC_1_OFFSET: u8 = 32;

/// The first vector of the secondary controller.
pub const PIC_2_OFFSET: u8 = 40;

/// The hardware interrupts the system handles.
#[derive(Debug, Clone, Copy, PartialEq, Eq, Structural)]
pub enum InterruptIndex {
    Timer,
    Keyboard,
    Mouse,
}

impl InterruptIndex {
    /// The vector number: timer and keyboard are lines 0 and 1 of the
    /// primary controller, the mouse line 4 of the secondary.
    pub fn as_u8(self) -> (v: u8)
        ensures
            v == match self {
                InterruptIndex::Timer => 32u8,
                InterruptIndex::Keyboard => 33u8,
                InterruptIndex::Mouse => 44u8,
            },
    {
        match self {
            InterruptIndex::Timer => PIC_1_OFFSET,
            InterruptIndex::Keyboard => PIC_1_OFFSET + 1,
            InterruptIndex::Mouse => PIC_2_OFFSET + 4,
        }
    }
}

} // verus!

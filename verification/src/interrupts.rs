//! Interrupt vector layout of the two chained 8259 PICs.
//!
//! CPU exception vectors 0–31 are reserved, so the primary PIC is remapped
//! to start at vector 32 and the secondary one right after it.
//! IRQ0 → timer: drives the preemptive scheduler tick.
//! IRQ1 → keyboard: feeds keystrokes into the kernel event queue.
use vstd::prelude::*;

verus! {

/// Primary PIC base vector — CPU exception vectors 0–31 are reserved.
pub const PIC_1_OFFSET: u8 = 32;
/// Secondary PIC base vector.
pub const PIC_2_OFFSET: u8 = PIC_1_OFFSET + 8;

/// Logical interrupt indices: the hardware IRQs the kernel handles, in IRQ
/// order from the primary PIC's base vector.
#[derive(Debug, Clone, Copy, PartialEq, Eq, Structural)]
pub enum InterruptIndex {
    Timer,
    Keyboard,
}

/// The IRQ line of each interrupt.
pub open spec fn irq_line(i: InterruptIndex) -> u8 {
    match i {
        InterruptIndex::Timer => 0,
        InterruptIndex::Keyboard => 1,
    }
}

impl InterruptIndex {
    /// The interrupt vector: the primary PIC's base vector plus the IRQ line.
    pub fn as_u8(self) -> (v: u8)
        ensures
            v == PIC_1_OFFSET + irq_line(self),
    {
        match self {
            InterruptIndex::Timer => PIC_1_OFFSET,
            InterruptIndex::Keyboard => PIC_1_OFFSET + 1,
        }
    }

    /// The interrupt vector, as an index into the interrupt descriptor table.
    pub fn as_usize(self) -> (v: usize)
        ensures
            v == PIC_1_OFFSET + irq_line(self),
    {
        self.as_u8() as usize
    }
}

/// The handled interrupts lie on the primary PIC, below the secondary PIC's
/// vectors, and no two share a vector.
pub proof fn lemma_interrupt_vectors_distinct(a: InterruptIndex, b: InterruptIndex)
    ensures
        PIC_1_OFFSET <= PIC_1_OFFSET + irq_line(a) < PIC_2_OFFSET,
        a != b ==> irq_line(a) != irq_line(b),
{
}

} // verus!

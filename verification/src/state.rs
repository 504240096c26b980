//! Which command is active: one shared slot that every dispatch may read
//! and that a successful selection writes.

use std::sync::atomic::{AtomicUsize, Ordering};
use vstd::prelude::*;

verus! {

/// The position, in the table of commands, of the command that plain
/// messages go to. The slot is shared by all dispatches that run at the
/// same time. A read sees some value that was written, or the initial 0;
/// which one is not promised, and so no contract here says what `get`
/// returns.
pub struct ActiveCommand {
    slot: AtomicUsize,
}

impl ActiveCommand {
    /// A slot that holds position 0.
    pub fn new() -> ActiveCommand {
        ActiveCommand { slot: AtomicUsize::new(0) }
    }

    /// The position that the slot holds now.
    pub fn get(&self) -> usize {
        self.slot.load(Ordering::Relaxed)
    }

    /// Puts `index` into the slot.
    pub fn set(&self, index: usize) {
        self.slot.store(index, Ordering::Relaxed)
    }
}

} // verus!

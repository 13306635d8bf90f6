use std::sync::atomic::{AtomicUsize, Ordering};
use vstd::prelude::*;

verus! {

/// A stretch of database work that can be interrupted from another thread.
/// An interruption is signalled by advancing a shared counter; the work is
/// interrupted once the counter no longer holds the value it held when the
/// scope began.
pub struct SqlInterruptScope<'a> {
    counter: &'a AtomicUsize,
    start: usize,
}

impl<'a> SqlInterruptScope<'a> {
    /// Begins a scope at the counter's current value.
    pub fn new(counter: &'a AtomicUsize) -> Self {
        let start = counter.load(Ordering::SeqCst);
        SqlInterruptScope { counter, start }
    }

    /// Whether an interruption has been signalled since the scope began. The
    /// answer depends on other threads, so nothing is promised of it.
    pub fn was_interrupted(&self) -> bool {
        self.counter.load(Ordering::SeqCst) != self.start
    }
}

} // verus!

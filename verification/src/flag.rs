//! The cancellation flag shared by a handle and its waiter.

use std::sync::atomic::AtomicBool;
use std::sync::atomic::Ordering;
use std::sync::Arc;
use vstd::prelude::*;

verus! {

/// A one-way boolean that can be set from any thread.
///
/// It starts out unset, `cancel` sets it, and nothing unsets it. Reads and
/// writes are relaxed: the flag guards no other data. Because any holder on
/// any thread may set it at any moment, a read promises nothing about the
/// value it returns.
pub struct CancelFlag {
    cell: Arc<AtomicBool>,
}

impl CancelFlag {
    /// Whether `self` and `other` are handles on one and the same flag.
    pub closed spec fn same_flag(self, other: CancelFlag) -> bool {
        self.cell == other.cell
    }

    /// A fresh flag, not yet set.
    pub fn new() -> (flag: CancelFlag) {
        CancelFlag { cell: Arc::new(AtomicBool::new(false)) }
    }

    /// Another handle on the same flag, to be given to another thread.
    pub fn share(&self) -> (other: CancelFlag)
        ensures
            other.same_flag(*self),
    {
        CancelFlag { cell: share_cell(&self.cell) }
    }

    /// Sets the flag. Setting it again changes nothing.
    pub fn cancel(&self) {
        self.cell.store(true, Ordering::Relaxed);
    }

    /// Reads the flag.
    pub fn is_cancelled(&self) -> (cancelled: bool) {
        self.cell.load(Ordering::Relaxed)
    }
}

/// `Arc::clone`: a second pointer to the allocation that `cell` points to.
/// Taken on trust: the result stands for the very same atomic as `cell`.
#[verifier::external_body]
fn share_cell(cell: &Arc<AtomicBool>) -> (other: Arc<AtomicBool>)
    ensures
        other == *cell,
{
    Arc::clone(cell)
}

} // verus!

//! Boolean flags shared between a coordination object and its watchers.
use vstd::prelude::*;
use std::sync::Arc;
use std::sync::atomic::AtomicBool;
use std::sync::atomic::Ordering;

verus! {

/// Another pointer to the allocation of an `Arc`, made by `std::sync::Arc::clone`.
///
/// Trusted: the documentation of `Arc::clone` says that the clone points to the
/// same allocation, so the clone is claimed equal to the original.
#[verifier::external_body]
pub(crate) fn arc_clone<T>(arc: &Arc<T>) -> (r: Arc<T>)
    ensures
        r == *arc,
{
    Arc::clone(arc)
}

/// A boolean shared between an owner that sets it and watchers that read it,
/// possibly from other threads.
///
/// Readers may observe a value set by any holder of the flag, so a read
/// promises no particular value.
pub struct SharedFlag {
    cell: Arc<AtomicBool>,
}

impl SharedFlag {
    /// A new flag with the given value.
    pub fn new(value: bool) -> (r: SharedFlag) {
        SharedFlag { cell: Arc::new(AtomicBool::new(value)) }
    }

    /// Another handle on the same flag.
    pub fn share(&self) -> (r: SharedFlag)
        ensures
            r == *self,
    {
        SharedFlag { cell: arc_clone(&self.cell) }
    }

    /// Read the current value of the flag.
    pub fn load(&self) -> (r: bool) {
        self.cell.load(Ordering::Relaxed)
    }

    /// Set the value of the flag.
    pub fn store(&self, value: bool) {
        self.cell.store(value, Ordering::Relaxed)
    }

    /// Set the value of the flag and return the value it had.
    pub fn swap(&self, value: bool) -> (r: bool) {
        self.cell.swap(value, Ordering::Relaxed)
    }
}

} // verus!

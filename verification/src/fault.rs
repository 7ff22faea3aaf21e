//! The device's fault policy.
//!
//! An unrecoverable fault — a panic — halts the device: the core is
//! parked in an endless idle loop and never returns to the faulting
//! code. The idle loop itself is the driver's, outside this library;
//! the per-component `panic` handlers return the order to perform it.

use vstd::prelude::*;

verus! {

/// What a panic handler orders the driver to do.
#[derive(Clone, Copy, Debug, PartialEq, Eq, Structural)]
pub enum Halt {
    /// Park the core in an idle loop, forever.
    Forever,
}

} // verus!

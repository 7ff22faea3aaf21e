//! The shared device state: a single boolean LED flag, written by HTTP
//! handlers and read by the LED driver at its own cadence.

use vstd::prelude::*;

verus! {

/// The one piece of shared mutable device state: whether the LED should be
/// on. Last write wins; there is no history and no "unset" state.
pub struct LedFlag {
    is_on: bool,
}

impl LedFlag {
    /// What the flag currently holds.
    pub closed spec fn view(&self) -> bool {
        self.is_on
    }

    /// A fresh flag holds `false`.
    pub fn new() -> (r: LedFlag)
        ensures
            !r@,
    {
        LedFlag { is_on: false }
    }

    /// Read the current value.
    pub fn get(&self) -> (r: bool)
        ensures
            r == self@,
    {
        self.is_on
    }

    /// Overwrite the flag; the previous value is lost.
    pub fn set(&mut self, value: bool)
        ensures
            final(self)@ == value,
    {
        self.is_on = value;
    }
}

impl Default for LedFlag {
    /// The default flag value is off.
    fn default() -> (r: LedFlag)
        ensures
            !r@,
    {
        LedFlag::new()
    }
}

/// The program's panic handler: an unrecoverable fault halts the
/// device, forever. The endless idle loop cannot stand in verified
/// code; the driver performs the halt this orders.
pub fn panic() -> (r: crate::fault::Halt)
    ensures
        r == crate::fault::Halt::Forever,
{
    crate::fault::Halt::Forever
}

} // verus!

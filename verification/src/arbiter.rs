//! The sharing arbiter: one advisory flag that says whether a sharer is
//! currently active.

use vstd::prelude::*;

verus! {

/// Advisory status of the relay: is some session currently sharing?
///
/// The flag is no lock and carries no owner. Any session may set or clear it,
/// whoever set it last.
pub struct SharingArbiter {
    sharing: bool,
}

impl View for SharingArbiter {
    type V = bool;

    closed spec fn view(&self) -> bool {
        self.sharing
    }
}

impl SharingArbiter {
    /// An arbiter that reports "not sharing".
    pub fn new() -> (arbiter: Self)
        ensures
            !arbiter@,
    {
        SharingArbiter { sharing: false }
    }

    /// The current status.
    pub fn is_sharing(&self) -> (sharing: bool)
        ensures
            sharing == self@,
    {
        self.sharing
    }

    /// Overwrites the status, whatever it was and whoever wrote it.
    pub fn set_sharing(&mut self, sharing: bool)
        ensures
            final(self)@ == sharing,
    {
        self.sharing = sharing;
    }
}

} // verus!

//! The error that a job reports: one line of text.

use vstd::prelude::*;

verus! {

/// A failed job or configuration step, carrying the message shown to the user.
#[derive(Debug, Clone)]
pub struct SafetyNetError(pub String);

impl SafetyNetError {
    /// The message, as shown to the user.
    pub fn message(&self) -> (r: String)
        ensures
            r@ == self.0@,
    {
        self.0.clone()
    }
}

} // verus!

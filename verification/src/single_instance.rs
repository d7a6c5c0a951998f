//! Why a second copy of the service does not start.

use vstd::prelude::*;

verus! {

/// Failure to become the one running instance.
#[derive(Debug)]
pub enum SingleInstanceError {
    /// Another instance holds the lock.
    AlreadyRunning,
    /// The lock could not be made; the text says why.
    CreateFailed(String),
}

impl SingleInstanceError {
    /// The error in words.
    pub open spec fn message(&self) -> Seq<char> {
        match *self {
            SingleInstanceError::AlreadyRunning => "Another instance is already running"@,
            SingleInstanceError::CreateFailed(e) => "Failed to create mutex: "@ + e@,
        }
    }

    /// The error in words.
    pub fn to_string(&self) -> (r: String)
        ensures
            r@ == self.message(),
    {
        match self {
            SingleInstanceError::AlreadyRunning => String::from_str(
                "Another instance is already running",
            ),
            SingleInstanceError::CreateFailed(e) => String::from_str(
                "Failed to create mutex: ",
            ).concat(e.as_str()),
        }
    }
}

} // verus!

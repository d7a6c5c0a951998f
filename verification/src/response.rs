//! The status report handed back to a caller.

use vstd::prelude::*;

verus! {

/// Whether the printer is reachable, and what went wrong if anything did.
#[derive(Debug)]
pub struct StatusResponse {
    pub is_connected: bool,
    pub error: Option<String>,
}

impl Clone for StatusResponse {
    fn clone(&self) -> (r: Self)
        ensures
            r == *self,
    {
        let error = match &self.error {
            Some(e) => Some(e.clone()),
            None => None,
        };
        StatusResponse { is_connected: self.is_connected, error }
    }
}

impl StatusResponse {
    /// Text of the error, if the report carries one.
    pub open spec fn error_text(&self) -> Option<Seq<char>> {
        match self.error {
            Some(e) => Some(e@),
            None => None,
        }
    }

    /// The report of a reachable printer with nothing to complain about.
    pub fn success() -> (r: Self)
        ensures
            r.is_connected,
            r.error is None,
    {
        StatusResponse { is_connected: true, error: None }
    }

    /// The report of an unreachable printer.
    pub fn disconnected(error: &str) -> (r: Self)
        ensures
            !r.is_connected,
            r.error_text() == Some(error@),
    {
        StatusResponse { is_connected: false, error: Some(error.to_owned()) }
    }

    /// A report that carries an error, whatever the connection state.
    pub fn error(is_connected: bool, error: &str) -> (r: Self)
        ensures
            r.is_connected == is_connected,
            r.error_text() == Some(error@),
    {
        StatusResponse { is_connected, error: Some(error.to_owned()) }
    }
}

} // verus!

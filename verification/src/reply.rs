//! What the service answers to a caller: a status class in the numbering of
//! HTTP and a status report.

use vstd::prelude::*;
use crate::error::AppError;
use crate::response::StatusResponse;
use crate::text::{decimal, push_decimal};

verus! {

/// Status of an answer that reports success.
pub const STATUS_OK: u16 = 200;

/// Status of an answer to a malformed job.
pub const STATUS_BAD_REQUEST: u16 = 400;

/// An answer to a caller.
#[derive(Debug)]
pub struct Reply {
    pub status: u16,
    pub body: StatusResponse,
}

/// What a status report says of a printer that does not answer.
pub open spec fn not_ready_text() -> Seq<char> {
    "The thermal printer is either not plugged in, or is in a not ready state."@
}

/// The answer to a status probe.  It is always a success as an answer; the
/// report in it tells whether the printer is there.
pub fn status_reply(is_connected: bool) -> (r: Reply)
    ensures
        r.status == STATUS_OK,
        r.body.is_connected == is_connected,
        r.body.error_text() == if is_connected {
            None
        } else {
            Some(not_ready_text())
        },
{
    let body = if is_connected {
        StatusResponse::success()
    } else {
        StatusResponse::disconnected(
            "The thermal printer is either not plugged in, or is in a not ready state.",
        )
    };
    Reply { status: STATUS_OK, body }
}

/// The answer to a job, given how it ended.  A failure is answered with the
/// status class of its error and a report that carries its message and
/// counts the printer as disconnected.
pub fn job_reply(outcome: &Result<(), AppError>) -> (r: Reply)
    ensures
        match *outcome {
            Ok(_) => {
                &&& r.status == STATUS_OK
                &&& r.body.is_connected
                &&& r.body.error is None
            },
            Err(e) => {
                &&& r.status == if e is InvalidInput {
                    400u16
                } else {
                    500u16
                }
                &&& !r.body.is_connected
                &&& r.body.error_text() == Some(e.message())
            },
        },
{
    match outcome {
        Ok(_) => Reply { status: STATUS_OK, body: StatusResponse::success() },
        Err(e) => Reply { status: e.status_code(), body: e.to_response(false) },
    }
}

/// The answer to a job that could not be read.  Such a job is turned down
/// at once and never reaches the printer.
pub fn invalid_input_reply(detail: &str) -> (r: Reply)
    ensures
        r.status == STATUS_BAD_REQUEST,
        !r.body.is_connected,
        r.body.error_text() == Some("Invalid input: "@ + detail@),
{
    let text = String::from_str("Invalid input: ").concat(detail);
    Reply { status: STATUS_BAD_REQUEST, body: StatusResponse::error(false, text.as_str()) }
}

/// The line under which a job appears in the history.
pub open spec fn job_summary(command_count: nat) -> Seq<char> {
    "Print job ("@ + decimal(command_count) + " commands)"@
}

/// The line under which a job appears in the history.
pub fn print_job_summary(command_count: usize) -> (r: String)
    ensures
        r@ == job_summary(command_count as nat),
{
    let mut text = String::from_str("Print job (");
    push_decimal(&mut text, command_count);
    text.append(" commands)");
    text
}

} // verus!

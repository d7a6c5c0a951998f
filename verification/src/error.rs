//! Failure classes of the service and how each is reported.

use vstd::prelude::*;
use crate::response::StatusResponse;

verus! {

/// A failure reported by the command encoder or by the transport under it.
#[derive(Debug)]
pub enum PrinterFault {
    /// The device could not be reached or a transfer failed.
    Io(String),
    /// The encoder rejected the data of a command.
    Input(String),
    /// The device answered with something unexpected.
    InvalidResponse(String),
}

impl Clone for PrinterFault {
    fn clone(&self) -> (r: Self)
        ensures
            r == *self,
    {
        match self {
            PrinterFault::Io(m) => PrinterFault::Io(m.clone()),
            PrinterFault::Input(m) => PrinterFault::Input(m.clone()),
            PrinterFault::InvalidResponse(m) => PrinterFault::InvalidResponse(m.clone()),
        }
    }
}

/// A failure as the service reports it to its caller.
#[derive(Debug)]
pub enum AppError {
    /// The submitted job was malformed.
    InvalidInput(String),
    /// The printer or its transport failed.
    PrinterError(String),
    /// The service itself failed.
    Internal(String),
}

impl AppError {
    /// The detail text carried by the error.
    pub open spec fn detail(&self) -> Seq<char> {
        match *self {
            AppError::InvalidInput(m) => m@,
            AppError::PrinterError(m) => m@,
            AppError::Internal(m) => m@,
        }
    }

    /// The label that prefixes the detail in the rendered message.
    pub open spec fn label(&self) -> Seq<char> {
        match *self {
            AppError::InvalidInput(_) => "Invalid input: "@,
            AppError::PrinterError(_) => "Printer error: "@,
            AppError::Internal(_) => "Internal error: "@,
        }
    }

    /// The rendered message: label, then detail.
    pub open spec fn message(&self) -> Seq<char> {
        self.label() + self.detail()
    }

    /// Status class of the error in the numbering of HTTP: 400 for a
    /// malformed job, 500 for a failure of the printer or the service.
    pub fn status_code(&self) -> (code: u16)
        ensures
            code == if *self is InvalidInput { 400u16 } else { 500u16 },
    {
        match self {
            AppError::InvalidInput(_) => 400,
            AppError::PrinterError(_) | AppError::Internal(_) => 500,
        }
    }

    /// Renders the error for a human reader.
    pub fn to_string(&self) -> (r: String)
        ensures
            r@ == self.message(),
    {
        match self {
            AppError::InvalidInput(m) => String::from_str("Invalid input: ").concat(m.as_str()),
            AppError::PrinterError(m) => String::from_str("Printer error: ").concat(m.as_str()),
            AppError::Internal(m) => String::from_str("Internal error: ").concat(m.as_str()),
        }
    }

    /// The status report for this error.
    pub fn to_response(&self, is_connected: bool) -> (r: StatusResponse)
        ensures
            r.is_connected == is_connected,
            r.error_text() == Some(self.message()),
    {
        let text = self.to_string();
        StatusResponse::error(is_connected, text.as_str())
    }
}

impl From<PrinterFault> for AppError {
    fn from(e: PrinterFault) -> (r: AppError) {
        match e {
            PrinterFault::Input(msg) => AppError::InvalidInput(msg),
            PrinterFault::InvalidResponse(msg) => AppError::PrinterError(msg),
            PrinterFault::Io(msg) => AppError::PrinterError(msg),
        }
    }
}

impl vstd::std_specs::convert::FromSpecImpl<PrinterFault> for AppError {
    open spec fn obeys_from_spec() -> bool {
        true
    }

    open spec fn from_spec(e: PrinterFault) -> AppError {
        match e {
            PrinterFault::Input(msg) => AppError::InvalidInput(msg),
            PrinterFault::InvalidResponse(msg) => AppError::PrinterError(msg),
            PrinterFault::Io(msg) => AppError::PrinterError(msg),
        }
    }
}

} // verus!

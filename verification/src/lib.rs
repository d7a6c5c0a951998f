//! Core of a receipt-printer service: the job model, the reprint watermark
//! injector, and the decision logic of the USB transport, the batch executor,
//! the reconnect loop and the health reporter.
//!
//! Everything here is logic with machine-checked contracts.  Work on the bus
//! and on the network is done outside this crate, by callers that drive the
//! state machines defined here.  The one thing the crate reads from the
//! machine is the clock, through two small functions whose contracts are
//! trusted rather than proved: [`reprint`] stamps its markers with the local
//! time, and [`service`] and [`print_log`] use the time since 1970.

mod clock;
pub mod command;
pub mod config;
pub mod error;
pub mod executor;
pub mod print_log;
pub mod receipt;
pub mod reply;
pub mod reprint;
pub mod request;
pub mod response;
pub mod sensor;
pub mod service;
pub mod single_instance;
pub mod text;
pub mod transport;
pub mod tray;

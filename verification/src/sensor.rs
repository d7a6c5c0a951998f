//! Health telemetry: what the service reports to the dashboard, and when.
//!
//! The reporter holds one coarse state.  It reports that state on every
//! heartbeat, on every change of the online flag, and at once when the
//! printer path raises an event.  Sending the report is left to the caller.

use vstd::prelude::*;

verus! {

/// A failure raised by the printer path.
#[derive(Debug)]
pub enum SensorEvent {
    /// The USB transport failed; the text says how.
    UsbError(String),
    /// An attempt to print a job failed; the text says which and how.
    PrintFail(String),
}

impl SensorEvent {
    /// The text carried by the event.
    pub open spec fn detail(&self) -> Seq<char> {
        match *self {
            SensorEvent::UsbError(m) => m@,
            SensorEvent::PrintFail(m) => m@,
        }
    }
}

impl Clone for SensorEvent {
    fn clone(&self) -> (r: Self)
        ensures
            r == *self,
    {
        match self {
            SensorEvent::UsbError(m) => SensorEvent::UsbError(m.clone()),
            SensorEvent::PrintFail(m) => SensorEvent::PrintFail(m.clone()),
        }
    }
}

/// The coarse state shown on the dashboard.
#[derive(Debug, Clone, Copy, PartialEq, Eq, Structural)]
pub enum SensorState {
    Online,
    Offline,
    UsbError,
    PrintFail,
}

impl SensorState {
    /// The state as the dashboard spells it.
    pub open spec fn label(self) -> Seq<char> {
        match self {
            SensorState::Online => "ONLINE"@,
            SensorState::Offline => "OFFLINE"@,
            SensorState::UsbError => "USB_ERROR"@,
            SensorState::PrintFail => "PRINT_FAIL"@,
        }
    }

    /// The state that an online flag stands for.
    pub open spec fn of_online(online: bool) -> SensorState {
        if online {
            SensorState::Online
        } else {
            SensorState::Offline
        }
    }

    /// The state that an event puts the reporter in.
    pub open spec fn of_event(event: SensorEvent) -> SensorState {
        match event {
            SensorEvent::UsbError(_) => SensorState::UsbError,
            SensorEvent::PrintFail(_) => SensorState::PrintFail,
        }
    }

    /// The state as the dashboard spells it.
    pub fn as_str(&self) -> (r: &'static str)
        ensures
            r@ == self.label(),
    {
        match self {
            SensorState::Online => "ONLINE",
            SensorState::Offline => "OFFLINE",
            SensorState::UsbError => "USB_ERROR",
            SensorState::PrintFail => "PRINT_FAIL",
        }
    }
}

/// What woke the reporter.
#[derive(Debug)]
pub enum ReporterInput {
    /// The heartbeat timer fired.
    Heartbeat,
    /// The online flag was written; this is its value now.
    StatusChanged(bool),
    /// Nobody can write the online flag any more.
    StatusClosed,
    /// The printer path raised an event.
    Event(SensorEvent),
}

/// What the reporter does about it.
#[derive(Debug, Clone, Copy, PartialEq, Eq, Structural)]
pub enum ReporterAction {
    /// Send this state to the dashboard.
    Report(SensorState),
    /// Nothing to send.
    Idle,
    /// Stop reporting.
    Stop,
}

/// The state that the reporter holds after an input.
pub open spec fn state_after(state: SensorState, input: ReporterInput) -> SensorState {
    match input {
        ReporterInput::Heartbeat => state,
        ReporterInput::StatusChanged(online) => SensorState::of_online(online),
        ReporterInput::StatusClosed => state,
        ReporterInput::Event(event) => SensorState::of_event(event),
    }
}

/// What the reporter does on an input.
///
/// A heartbeat always reports.  A write of the online flag reports only when
/// it changes the state.  An event always reports, even when the state it
/// leads to is the state already held.
pub open spec fn action_on(state: SensorState, input: ReporterInput) -> ReporterAction {
    match input {
        ReporterInput::Heartbeat => ReporterAction::Report(state),
        ReporterInput::StatusChanged(online) => if SensorState::of_online(online) != state {
            ReporterAction::Report(SensorState::of_online(online))
        } else {
            ReporterAction::Idle
        },
        ReporterInput::StatusClosed => ReporterAction::Stop,
        ReporterInput::Event(event) => ReporterAction::Report(SensorState::of_event(event)),
    }
}

/// Reports the health of the service to a dashboard.
#[derive(Debug)]
pub struct SensorReporter {
    api_key: String,
    server_url: String,
    current_state: SensorState,
}

impl SensorReporter {
    /// The state that the next heartbeat reports.
    pub closed spec fn state(&self) -> SensorState {
        self.current_state
    }

    /// The credential sent with each report.
    pub closed spec fn key(&self) -> Seq<char> {
        self.api_key@
    }

    /// The address of the dashboard.
    pub closed spec fn server(&self) -> Seq<char> {
        self.server_url@
    }

    /// A reporter for the dashboard at `server_url`, or none where no
    /// credential is configured.  A new reporter holds the offline state.
    pub fn new(api_key: String, server_url: String) -> (r: Option<Self>)
        ensures
            r is None <==> api_key@.len() == 0,
            r matches Some(reporter) ==> {
                &&& reporter.key() == api_key@
                &&& reporter.server() == server_url@
                &&& reporter.state() == SensorState::Offline
            },
    {
        if api_key.as_str().is_empty() {
            None
        } else {
            Some(SensorReporter { api_key, server_url, current_state: SensorState::Offline })
        }
    }

    /// The credential sent with each report.
    pub fn api_key(&self) -> (r: &str)
        ensures
            r@ == self.key(),
    {
        self.api_key.as_str()
    }

    /// The state that the next heartbeat reports.
    pub fn current_state(&self) -> (r: SensorState)
        ensures
            r == self.state(),
    {
        self.current_state
    }

    /// Where reports are posted: the dashboard's address followed by the
    /// path of its report endpoint.
    pub fn report_url(&self) -> (r: String)
        ensures
            r@ == self.server() + "/api/sensors/report"@,
    {
        self.server_url.clone().concat("/api/sensors/report")
    }

    /// Takes one input and says what to do about it.
    pub fn handle(&mut self, input: &ReporterInput) -> (action: ReporterAction)
        ensures
            action == action_on(old(self).state(), *input),
            final(self).state() == state_after(old(self).state(), *input),
            final(self).key() == old(self).key(),
            final(self).server() == old(self).server(),
    {
        match input {
            ReporterInput::Heartbeat => ReporterAction::Report(self.current_state),
            ReporterInput::StatusChanged(online) => {
                let next = if *online {
                    SensorState::Online
                } else {
                    SensorState::Offline
                };
                if next != self.current_state {
                    self.current_state = next;
                    ReporterAction::Report(next)
                } else {
                    ReporterAction::Idle
                }
            },
            ReporterInput::StatusClosed => ReporterAction::Stop,
            ReporterInput::Event(event) => {
                let next = match event {
                    SensorEvent::UsbError(_) => SensorState::UsbError,
                    SensorEvent::PrintFail(_) => SensorState::PrintFail,
                };
                self.current_state = next;
                ReporterAction::Report(next)
            },
        }
    }
}

} // verus!

//! Decisions of the service that owns the printer: how a job is retried
//! across reconnects, what a health probe means for the online flag, which
//! jobs a test print consists of, and how operations are told apart in the
//! log.
//!
//! A job is never given up.  A failed attempt is followed by a reconnect,
//! which itself does not end before a device answers, and then by a new
//! attempt from the top of the job.  The caller performs the actions that
//! the state machine asks for and reports what happened.

use vstd::prelude::*;
use crate::command::{Command, CommandView, JustifyMode, UnderlineMode, job_view};
use crate::error::PrinterFault;
use crate::request::PrinterTestSchema;
use crate::sensor::SensorEvent;
use crate::clock::epoch_millis;
use crate::text::{decimal, hex4_lower, hex_char_lower, push_decimal, push_hex4_lower};

verus! {

/// Seconds to wait before looking for the device again.
pub const RECONNECT_DELAY_SECONDS: u64 = 5;

/// Seconds between two health probes.
pub const HEALTH_CHECK_INTERVAL_SECONDS: u64 = 30;

/// Seconds between two heartbeats of the sensor reporter.
pub const HEARTBEAT_INTERVAL_SECONDS: u64 = 60;

/// Where a job stands.
#[derive(Debug, Clone, Copy, PartialEq, Eq, Structural)]
pub enum RetryState {
    /// Attempt number `attempt`, counted from one, is under way.
    Attempting { attempt: u32 },
    /// Attempt number `attempt` has failed and the transport is being
    /// replaced; `failed_opens` tries to open the device have failed so far.
    Reconnecting { attempt: u32, failed_opens: u32 },
    /// The job was printed by attempt number `attempts`.
    Succeeded { attempts: u32 },
}

/// What the caller reports back.
#[derive(Debug, Clone, Copy, PartialEq, Eq, Structural)]
pub enum RetryEvent {
    /// The batch ran to its end.
    JobSucceeded,
    /// The batch was aborted by a failure.
    JobFailed,
    /// A device answered and its transport is open.
    DeviceOpened,
    /// No device answered.
    OpenFailed,
}

/// What the caller is asked to do.
#[derive(Debug, Clone, Copy, PartialEq, Eq, Structural)]
pub enum RetryAction {
    /// Run the whole job, from its first step, on the current transport.
    RunJob,
    /// Push a print-failure event to the sensor, dropping it if the queue
    /// is full.
    RaisePrintFail,
    /// Write the shared online flag.
    SetOnline(bool),
    /// Try once to find and open the device.
    OpenDevice,
    /// Wait this many seconds.
    Wait(u64),
    /// Make the transport just opened the shared one.
    InstallDevice,
    /// Hand the result to whoever submitted the job.
    Finish,
}

/// One more, unless the counter is at its limit.
pub open spec fn bump(n: u32) -> u32 {
    if n < u32::MAX {
        (n + 1) as u32
    } else {
        n
    }
}

/// The state that an event leads to.  An event that the state does not wait
/// for changes nothing.
pub open spec fn next_state(state: RetryState, event: RetryEvent) -> RetryState {
    match (state, event) {
        (RetryState::Attempting { attempt }, RetryEvent::JobSucceeded) => RetryState::Succeeded {
            attempts: attempt,
        },
        (RetryState::Attempting { attempt }, RetryEvent::JobFailed) => RetryState::Reconnecting {
            attempt,
            failed_opens: 0,
        },
        (
            RetryState::Reconnecting { attempt, failed_opens },
            RetryEvent::OpenFailed,
        ) => RetryState::Reconnecting { attempt, failed_opens: bump(failed_opens) },
        (RetryState::Reconnecting { attempt, .. }, RetryEvent::DeviceOpened) => RetryState::Attempting {
            attempt: bump(attempt),
        },
        _ => state,
    }
}

/// What an event asks the caller to do, in this order.
pub open spec fn actions_on(state: RetryState, event: RetryEvent) -> Seq<RetryAction> {
    match (state, event) {
        (RetryState::Attempting { .. }, RetryEvent::JobSucceeded) => seq![RetryAction::Finish],
        (RetryState::Attempting { .. }, RetryEvent::JobFailed) => seq![
            RetryAction::RaisePrintFail,
            RetryAction::SetOnline(false),
            RetryAction::OpenDevice,
        ],
        (RetryState::Reconnecting { .. }, RetryEvent::OpenFailed) => seq![
            RetryAction::Wait(RECONNECT_DELAY_SECONDS),
            RetryAction::OpenDevice,
        ],
        (RetryState::Reconnecting { .. }, RetryEvent::DeviceOpened) => seq![
            RetryAction::InstallDevice,
            RetryAction::SetOnline(true),
            RetryAction::RunJob,
        ],
        _ => seq![],
    }
}

/// The state after a run of events.
pub open spec fn state_after(state: RetryState, events: Seq<RetryEvent>) -> RetryState
    decreases events.len(),
{
    if events.len() == 0 {
        state
    } else {
        next_state(state_after(state, events.drop_last()), events.last())
    }
}

impl RetryState {
    /// The state of a job just submitted: its first attempt is under way.
    pub fn start() -> (r: RetryState)
        ensures
            r == (RetryState::Attempting { attempt: 1 }),
    {
        RetryState::Attempting { attempt: 1 }
    }

    /// Whether the job has been printed.
    pub fn is_finished(&self) -> (r: bool)
        ensures
            r == (*self is Succeeded),
    {
        match self {
            RetryState::Succeeded { .. } => true,
            _ => false,
        }
    }

    /// Takes one event: gives the state it leads to and what to do next.
    pub fn step(&self, event: RetryEvent) -> (r: (RetryState, Vec<RetryAction>))
        ensures
            r.0 == next_state(*self, event),
            r.1@ == actions_on(*self, event),
    {
        match (*self, event) {
            (RetryState::Attempting { attempt }, RetryEvent::JobSucceeded) => (
                RetryState::Succeeded { attempts: attempt },
                vec![RetryAction::Finish],
            ),
            (RetryState::Attempting { attempt }, RetryEvent::JobFailed) => (
                RetryState::Reconnecting { attempt, failed_opens: 0 },
                vec![RetryAction::RaisePrintFail, RetryAction::SetOnline(false), RetryAction::OpenDevice],
            ),
            (RetryState::Reconnecting { attempt, failed_opens }, RetryEvent::OpenFailed) => (
                RetryState::Reconnecting { attempt, failed_opens: bump_counter(failed_opens) },
                vec![RetryAction::Wait(RECONNECT_DELAY_SECONDS), RetryAction::OpenDevice],
            ),
            (RetryState::Reconnecting { attempt, .. }, RetryEvent::DeviceOpened) => (
                RetryState::Attempting { attempt: bump_counter(attempt) },
                vec![RetryAction::InstallDevice, RetryAction::SetOnline(true), RetryAction::RunJob],
            ),
            _ => (*self, Vec::new()),
        }
    }
}

fn bump_counter(n: u32) -> (r: u32)
    ensures
        r == bump(n),
{
    if n < u32::MAX {
        n + 1
    } else {
        n
    }
}

/// A job ends in one way only: an attempt succeeds.  In every other case
/// the machine stays at work, so no failure, of the job or of a reconnect,
/// ever ends it.
pub proof fn lemma_only_success_ends(state: RetryState, event: RetryEvent)
    requires
        !(state is Succeeded),
    ensures
        next_state(state, event) is Succeeded <==> state is Attempting && event
            == RetryEvent::JobSucceeded,
        !(next_state(state, event) is Succeeded) ==> actions_on(state, event).len() == 0
            || actions_on(state, event).last() == RetryAction::OpenDevice || actions_on(
            state,
            event,
        ).last() == RetryAction::RunJob,
{
}

/// Whatever happens, a job is never run on a transport known to be broken:
/// between a failed attempt and the next one lies a successful open, and the
/// new transport is installed and the online flag raised before the job
/// runs again.
pub proof fn lemma_attempts_follow_reconnect(state: RetryState, event: RetryEvent)
    requires
        actions_on(state, event).contains(RetryAction::RunJob),
    ensures
        state is Reconnecting,
        event == RetryEvent::DeviceOpened,
        actions_on(state, event) == seq![
            RetryAction::InstallDevice,
            RetryAction::SetOnline(true),
            RetryAction::RunJob,
        ],
{
    let actions = actions_on(state, event);
    let i = choose|i: int| 0 <= i < actions.len() && actions[i] == RetryAction::RunJob;
    assert(actions[i] == RetryAction::RunJob);
}

/// Once a job has been printed, no event changes that or asks for anything.
pub proof fn lemma_success_is_final(state: RetryState, events: Seq<RetryEvent>)
    requires
        state is Succeeded,
    ensures
        state_after(state, events) == state,
    decreases events.len(),
{
    if events.len() > 0 {
        lemma_success_is_final(state, events.drop_last());
    }
}

/// How long to wait, in seconds, before looking for the device again when
/// no job is under way, as at the start of the service: not at all once the
/// device is open, the usual delay otherwise.  The search is never given up.
pub fn wait_before_reopening(opened: bool) -> (wait: Option<u64>)
    ensures
        wait == if opened {
            None::<u64>
        } else {
            Some(RECONNECT_DELAY_SECONDS)
        },
{
    if opened {
        None
    } else {
        Some(RECONNECT_DELAY_SECONDS)
    }
}

/// What the online flag becomes after a health probe: up if the probe went
/// through, down if it failed in any way.  A failed probe only lowers the
/// flag; it starts no reconnect of its own.
pub fn online_after_probe(probe: &Result<(), PrinterFault>) -> (online: bool)
    ensures
        online == (*probe is Ok),
{
    match probe {
        Ok(_) => true,
        Err(_) => false,
    }
}

/// Numbers the operations of the process.
#[derive(Debug)]
pub struct PrintCounter {
    next: u32,
}

impl PrintCounter {
    /// The number that the next operation gets.
    pub closed spec fn value(&self) -> u32 {
        self.next
    }

    /// A counter that starts at zero.
    pub fn new() -> (r: Self)
        ensures
            r.value() == 0,
    {
        PrintCounter { next: 0 }
    }

    /// Hands out the next number.  After the largest number the count
    /// starts over.
    pub fn take(&mut self) -> (n: u32)
        ensures
            n == old(self).value(),
            final(self).value() == if old(self).value() == u32::MAX {
                0u32
            } else {
                (old(self).value() + 1) as u32
            },
    {
        let n = self.next;
        self.next = if n == u32::MAX {
            0
        } else {
            n + 1
        };
        n
    }
}

/// The id of an operation: the low 16 bits of the time in milliseconds and
/// the low 16 bits of the operation's number, each in four hexadecimal
/// digits.
pub open spec fn print_id_text(millis: nat, count: nat) -> Seq<char> {
    hex4_lower(millis % 65536) + hex4_lower(count % 65536)
}

/// Renders the id of an operation.
pub fn format_print_id(millis: u128, count: u32) -> (id: String)
    ensures
        id@ == print_id_text(millis as nat, count as nat),
{
    let mut id = String::new();
    push_hex4_lower(&mut id, (millis % 65536) as u16);
    push_hex4_lower(&mut id, (count % 65536) as u16);
    id
}

/// Makes the id under which the log lines of one operation are found.
pub fn generate_print_id(counter: &mut PrintCounter) -> (id: String)
    ensures
        exists|millis: nat| id@ == #[trigger] print_id_text(millis, old(counter).value() as nat),
        final(counter).value() == if old(counter).value() == u32::MAX {
            0u32
        } else {
            (old(counter).value() + 1) as u32
        },
{
    let count = counter.take();
    let millis = epoch_millis();
    let id = format_print_id(millis, count);
    assert(id@ == print_id_text(millis as nat, count as nat));
    id
}

proof fn lemma_hex_digits_differ(a: u8, b: u8)
    requires
        a < 16,
        b < 16,
        a != b,
    ensures
        hex_char_lower(a) != hex_char_lower(b),
{
}

proof fn lemma_digits_make_the_number(n: nat)
    requires
        n < 65536,
    ensures
        n == (n / 4096 % 16) * 4096 + (n / 256 % 16) * 256 + (n / 16 % 16) * 16 + n % 16,
{
}

proof fn lemma_hex4_lower_differs(a: nat, b: nat)
    requires
        a < 65536,
        b < 65536,
        a != b,
    ensures
        hex4_lower(a) != hex4_lower(b),
{
    let a3 = (a / 4096 % 16) as u8;
    let a2 = (a / 256 % 16) as u8;
    let a1 = (a / 16 % 16) as u8;
    let a0 = (a % 16) as u8;
    let b3 = (b / 4096 % 16) as u8;
    let b2 = (b / 256 % 16) as u8;
    let b1 = (b / 16 % 16) as u8;
    let b0 = (b % 16) as u8;
    lemma_digits_make_the_number(a);
    lemma_digits_make_the_number(b);
    assert(hex4_lower(a)[0] == hex_char_lower(a3) && hex4_lower(b)[0] == hex_char_lower(b3));
    assert(hex4_lower(a)[1] == hex_char_lower(a2) && hex4_lower(b)[1] == hex_char_lower(b2));
    assert(hex4_lower(a)[2] == hex_char_lower(a1) && hex4_lower(b)[2] == hex_char_lower(b1));
    assert(hex4_lower(a)[3] == hex_char_lower(a0) && hex4_lower(b)[3] == hex_char_lower(b0));
    if a3 != b3 {
        lemma_hex_digits_differ(a3, b3);
    } else if a2 != b2 {
        lemma_hex_digits_differ(a2, b2);
    } else if a1 != b1 {
        lemma_hex_digits_differ(a1, b1);
    } else {
        assert(a0 != b0);
        lemma_hex_digits_differ(a0, b0);
    }
}

/// Operations that start within the same millisecond get different ids as
/// long as their numbers differ in the low 16 bits, that is for any 65536
/// operations in a row.
pub proof fn lemma_print_ids_differ(millis: nat, first: nat, second: nat)
    requires
        first % 65536 != second % 65536,
    ensures
        print_id_text(millis, first) != print_id_text(millis, second),
{
    let stamp = hex4_lower(millis % 65536);
    let a = hex4_lower(first % 65536);
    let b = hex4_lower(second % 65536);
    lemma_hex4_lower_differs(first % 65536, second % 65536);
    assert((stamp + a).subrange(4, 8) =~= a);
    assert((stamp + b).subrange(4, 8) =~= b);
}

/// What the sensor is told when an attempt to print a job fails.
pub open spec fn print_fail_notice(print_id: Seq<char>, attempt: u32, error: Seq<char>) -> Seq<char> {
    "print_id="@ + print_id + " attempt="@ + decimal(attempt as nat) + " error="@ + error
}

/// The event raised when an attempt to print a job fails.
pub fn print_fail_event(print_id: &str, attempt: u32, error: &str) -> (event: SensorEvent)
    ensures
        event matches SensorEvent::PrintFail(text) && text@ == print_fail_notice(
            print_id@,
            attempt,
            error@,
        ),
{
    let mut text = String::from_str("print_id=");
    text.append(print_id);
    text.append(" attempt=");
    push_decimal(&mut text, attempt as usize);
    text.append(" error=");
    text.append(error);
    SensorEvent::PrintFail(text)
}

/// The built-in test page.
pub open spec fn test_page_job() -> Seq<CommandView> {
    seq![
        CommandView::Smoothing(true),
        CommandView::Bold(true),
        CommandView::Underline(UnderlineMode::Single),
        CommandView::Writeln("Bold underline"@),
        CommandView::Justify(JustifyMode::CENTER),
        CommandView::Reverse(true),
        CommandView::Bold(false),
        CommandView::Writeln("Hello world - Reverse"@),
        CommandView::Feed(true),
        CommandView::Justify(JustifyMode::RIGHT),
        CommandView::Reverse(false),
        CommandView::Underline(UnderlineMode::Off),
        CommandView::Size((2u8, 3u8)),
        CommandView::Writeln("Hello world - Normal"@),
        CommandView::PrintCut(None),
    ]
}

/// The job that prints one test line.
pub open spec fn test_line_job(line: Seq<char>) -> Seq<CommandView> {
    seq![CommandView::Writeln(line), CommandView::PrintCut(None)]
}

/// The jobs of a test print, in the order in which they are run: the test
/// page if it is asked for, then the test line if there is one.
pub open spec fn test_jobs(test_page: bool, test_line: Seq<char>) -> Seq<Seq<CommandView>> {
    (if test_page {
        seq![test_page_job()]
    } else {
        seq![]
    }) + (if test_line.len() > 0 {
        seq![test_line_job(test_line)]
    } else {
        seq![]
    })
}

/// The built-in test page.
pub fn test_page_commands() -> (r: Vec<Command>)
    ensures
        job_view(r@) == test_page_job(),
{
    let r = vec![
        Command::Smoothing(true),
        Command::Bold(true),
        Command::Underline(UnderlineMode::Single),
        Command::Writeln(String::from_str("Bold underline")),
        Command::Justify(JustifyMode::CENTER),
        Command::Reverse(true),
        Command::Bold(false),
        Command::Writeln(String::from_str("Hello world - Reverse")),
        Command::Feed(true),
        Command::Justify(JustifyMode::RIGHT),
        Command::Reverse(false),
        Command::Underline(UnderlineMode::Off),
        Command::Size((2, 3)),
        Command::Writeln(String::from_str("Hello world - Normal")),
        Command::PrintCut(None),
    ];
    assert(job_view(r@) =~= test_page_job());
    r
}

/// The job that prints one test line.
pub fn test_line_commands(line: &str) -> (r: Vec<Command>)
    ensures
        job_view(r@) == test_line_job(line@),
{
    let r = vec![Command::Writeln(String::from_str(line)), Command::PrintCut(None)];
    assert(job_view(r@) =~= test_line_job(line@));
    r
}

/// The jobs that a test print consists of.  Each is run as a batch of its
/// own, and a failing batch keeps the ones behind it from running.
pub fn test_print_jobs(request: &PrinterTestSchema) -> (jobs: Vec<Vec<Command>>)
    ensures
        jobs@.len() == test_jobs(request.spec_test_page(), request.spec_test_line()).len(),
        forall|i: int|
            0 <= i < jobs@.len() ==> job_view(#[trigger] jobs@[i]@) == test_jobs(
                request.spec_test_page(),
                request.spec_test_line(),
            )[i],
{
    let mut jobs: Vec<Vec<Command>> = Vec::new();
    if request.test_page() {
        jobs.push(test_page_commands());
    }
    if !request.test_line().is_empty() {
        jobs.push(test_line_commands(request.test_line()));
    }
    jobs
}

} // verus!

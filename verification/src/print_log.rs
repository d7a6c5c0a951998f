//! The history of print jobs: newest first, and never longer than allowed.

use std::collections::VecDeque;
use vstd::prelude::*;
use crate::clock::epoch_millis;
use crate::command::Command;

verus! {

/// How a job ended.
#[derive(Debug, Clone, Copy, PartialEq, Eq, Structural)]
pub enum LogStatus {
    Success,
    Error,
}

/// One job of the history.
#[derive(Debug)]
pub struct LogEntry {
    /// When the job ended, in milliseconds since the start of 1970.
    pub timestamp: u64,
    pub summary: String,
    pub status: LogStatus,
    pub error: Option<String>,
    /// The job itself, where it was kept for a preview.
    pub commands: Option<Vec<Command>>,
}

/// The first `max` entries of a history.
pub open spec fn trimmed(entries: Seq<LogEntry>, max: nat) -> Seq<LogEntry> {
    if entries.len() > max {
        entries.take(max as int)
    } else {
        entries
    }
}

/// The history with one more entry on top, cut back to `max` entries.
pub open spec fn recorded(entries: Seq<LogEntry>, entry: LogEntry, max: nat) -> Seq<LogEntry> {
    trimmed(seq![entry] + entries, max)
}

/// The history of print jobs.
#[derive(Debug)]
pub struct PrintLog {
    entries: VecDeque<LogEntry>,
    max_entries: usize,
}

impl PrintLog {
    /// The entries, newest first.
    pub closed spec fn view(&self) -> Seq<LogEntry> {
        self.entries@
    }

    /// The number of entries that the history keeps at most.
    pub closed spec fn capacity(&self) -> nat {
        self.max_entries as nat
    }

    /// An empty history that keeps `max_entries` entries.
    pub fn new(max_entries: usize) -> (r: Self)
        ensures
            r@ == Seq::<LogEntry>::empty(),
            r.capacity() == max_entries,
    {
        PrintLog { entries: VecDeque::new(), max_entries }
    }

    /// The history made of stored entries, newest first, cut back to
    /// `max_entries` entries.
    pub fn from_entries(entries: Vec<LogEntry>, max_entries: usize) -> (r: Self)
        ensures
            r@ == trimmed(entries@, max_entries as nat),
            r.capacity() == max_entries,
            r@.len() <= r.capacity(),
    {
        let mut entries = entries;
        let mut kept: VecDeque<LogEntry> = VecDeque::new();
        let ghost all = entries@;
        if entries.len() > max_entries {
            entries.truncate(max_entries);
        }
        let ghost wanted = entries@;
        assert(wanted =~= trimmed(all, max_entries as nat));
        while entries.len() > 0
            invariant
                wanted.len() <= max_entries,
                entries@.len() <= wanted.len(),
                entries@ == wanted.take(entries@.len() as int),
                kept@ == wanted.skip(entries@.len() as int),
            decreases entries@.len(),
        {
            let entry = entries.pop().unwrap();
            kept.push_front(entry);
            assert(entries@ =~= wanted.take(entries@.len() as int));
            assert(kept@ =~= wanted.skip(entries@.len() as int));
        }
        assert(kept@ =~= wanted);
        PrintLog { entries: kept, max_entries }
    }

    /// Number of entries.
    pub fn len(&self) -> (n: usize)
        ensures
            n == self@.len(),
    {
        self.entries.len()
    }

    /// Drops the oldest entries beyond what the history keeps.
    fn trim(&mut self)
        ensures
            final(self)@ == trimmed(old(self)@, old(self).capacity()),
            final(self).capacity() == old(self).capacity(),
    {
        while self.entries.len() > self.max_entries
            invariant
                self.max_entries == old(self).max_entries,
                self.entries@.len() <= old(self).entries@.len(),
                self.entries@.len() >= self.max_entries || self.entries@.len() == old(
                    self,
                ).entries@.len(),
                self.entries@ == old(self).entries@.take(self.entries@.len() as int),
            decreases self.entries@.len(),
        {
            self.entries.pop_back();
            assert(self.entries@ =~= old(self).entries@.take(self.entries@.len() as int));
        }
        assert(self.entries@ =~= trimmed(old(self)@, old(self).capacity()));
    }

    /// Whether the history holds no entry.
    pub fn is_empty(&self) -> (r: bool)
        ensures
            r == (self@.len() == 0),
    {
        self.entries.len() == 0
    }

    /// The entry at a position, the newest at position zero.
    pub fn entry(&self, index: usize) -> (r: Option<&LogEntry>)
        ensures
            r == if index < self@.len() {
                Some(&self@[index as int])
            } else {
                None
            },
    {
        if index < self.entries.len() {
            Some(&self.entries[index])
        } else {
            None
        }
    }

    /// Puts an entry on top of the history and drops the oldest entries
    /// beyond what the history keeps.
    pub fn record(&mut self, entry: LogEntry)
        ensures
            final(self)@ == recorded(old(self)@, entry, old(self).capacity()),
            final(self).capacity() == old(self).capacity(),
            final(self)@.len() <= final(self).capacity(),
    {
        self.entries.push_front(entry);
        self.trim();
    }

    /// Records a job that ended just now.
    pub fn add_entry(&mut self, summary: String, status: LogStatus, error: Option<String>)
        ensures
            final(self).capacity() == old(self).capacity(),
            exists|timestamp: u64|
                final(self)@ == #[trigger] recorded(
                    old(self)@,
                    LogEntry { timestamp, summary, status, error, commands: None },
                    old(self).capacity(),
                ),
    {
        self.add_entry_with_commands(summary, status, error, None);
    }

    /// Records a job that ended just now, together with its commands.
    pub fn add_entry_with_commands(
        &mut self,
        summary: String,
        status: LogStatus,
        error: Option<String>,
        commands: Option<Vec<Command>>,
    )
        ensures
            final(self).capacity() == old(self).capacity(),
            exists|timestamp: u64|
                final(self)@ == #[trigger] recorded(
                    old(self)@,
                    LogEntry { timestamp, summary, status, error, commands },
                    old(self).capacity(),
                ),
    {
        let now = epoch_millis();
        let timestamp: u64 = if now > u64::MAX as u128 {
            u64::MAX
        } else {
            now as u64
        };
        let entry = LogEntry { timestamp, summary, status, error, commands };
        self.record(entry);
        assert(self@ == recorded(
            old(self)@,
            LogEntry { timestamp, summary, status, error, commands },
            old(self).capacity(),
        ));
    }

    /// Records a job that was printed.
    pub fn add_success(&mut self, summary: String)
        ensures
            final(self).capacity() == old(self).capacity(),
            exists|timestamp: u64|
                final(self)@ == #[trigger] recorded(
                    old(self)@,
                    LogEntry {
                        timestamp,
                        summary,
                        status: LogStatus::Success,
                        error: None,
                        commands: None,
                    },
                    old(self).capacity(),
                ),
    {
        self.add_entry(summary, LogStatus::Success, None);
    }

    /// Records a job that failed.
    pub fn add_error(&mut self, summary: String, error: String)
        ensures
            final(self).capacity() == old(self).capacity(),
            exists|timestamp: u64|
                final(self)@ == #[trigger] recorded(
                    old(self)@,
                    LogEntry {
                        timestamp,
                        summary,
                        status: LogStatus::Error,
                        error: Some(error),
                        commands: None,
                    },
                    old(self).capacity(),
                ),
    {
        self.add_entry(summary, LogStatus::Error, Some(error));
    }

    /// Records a job that was printed, and keeps it for a preview.
    pub fn add_success_with_commands(&mut self, summary: String, commands: Vec<Command>)
        ensures
            final(self).capacity() == old(self).capacity(),
            exists|timestamp: u64|
                final(self)@ == #[trigger] recorded(
                    old(self)@,
                    LogEntry {
                        timestamp,
                        summary,
                        status: LogStatus::Success,
                        error: None,
                        commands: Some(commands),
                    },
                    old(self).capacity(),
                ),
    {
        self.add_entry_with_commands(summary, LogStatus::Success, None, Some(commands));
    }

    /// Records a job that failed, and keeps it for a preview.
    pub fn add_error_with_commands(&mut self, summary: String, error: String, commands: Vec<Command>)
        ensures
            final(self).capacity() == old(self).capacity(),
            exists|timestamp: u64|
                final(self)@ == #[trigger] recorded(
                    old(self)@,
                    LogEntry {
                        timestamp,
                        summary,
                        status: LogStatus::Error,
                        error: Some(error),
                        commands: Some(commands),
                    },
                    old(self).capacity(),
                ),
    {
        self.add_entry_with_commands(summary, LogStatus::Error, Some(error), Some(commands));
    }
}

/// Recording puts the new entry on top of the history, unless the history
/// keeps nothing, moves the others down by one, and leaves no more entries
/// than the history keeps.
pub proof fn lemma_recorded(entries: Seq<LogEntry>, entry: LogEntry, max: nat)
    ensures
        recorded(entries, entry, max).len() == if entries.len() < max {
            entries.len() + 1
        } else {
            max
        },
        max > 0 ==> recorded(entries, entry, max)[0] == entry,
        forall|i: int|
            1 <= i < recorded(entries, entry, max).len() ==> recorded(entries, entry, max)[i]
                == entries[i - 1],
{
}

} // verus!

use reika_printer::command::Command;
use reika_printer::print_log::{LogEntry, LogStatus, PrintLog};

fn entry(summary: &str) -> LogEntry {
    LogEntry {
        timestamp: 1,
        summary: summary.to_string(),
        status: LogStatus::Success,
        error: None,
        commands: None,
    }
}

fn summaries(log: &PrintLog) -> Vec<String> {
    (0..log.len()).map(|i| log.entry(i).unwrap().summary.clone()).collect()
}

#[test]
fn a_new_log_is_empty() {
    let log = PrintLog::new(3);
    assert!(log.is_empty());
    assert_eq!(log.len(), 0);
    assert!(log.entry(0).is_none());
}

#[test]
fn newest_entry_comes_first_and_the_oldest_falls_off() {
    let mut log = PrintLog::new(3);
    for name in ["a", "b", "c"] {
        log.record(entry(name));
    }
    assert_eq!(summaries(&log), vec!["c", "b", "a"]);
    log.record(entry("d"));
    assert_eq!(summaries(&log), vec!["d", "c", "b"]);
    assert!(!log.is_empty());
    assert!(log.entry(3).is_none());
}

#[test]
fn a_log_that_keeps_nothing_stays_empty() {
    let mut log = PrintLog::new(0);
    log.record(entry("a"));
    log.add_success("b".to_string());
    assert!(log.is_empty());
}

#[test]
fn stored_entries_are_cut_back_to_the_limit() {
    let stored = vec![entry("new"), entry("mid"), entry("old")];
    let log = PrintLog::from_entries(stored, 2);
    assert_eq!(summaries(&log), vec!["new", "mid"]);

    let stored = vec![entry("new"), entry("old")];
    let mut log = PrintLog::from_entries(stored, 5);
    assert_eq!(summaries(&log), vec!["new", "old"]);
    log.record(entry("newer"));
    assert_eq!(summaries(&log), vec!["newer", "new", "old"]);

    assert!(PrintLog::from_entries(vec![entry("x")], 0).is_empty());
    assert!(PrintLog::from_entries(Vec::new(), 4).is_empty());
}

#[test]
fn jobs_are_recorded_with_status_error_and_time() {
    let mut log = PrintLog::new(10);
    log.add_success("Test print".to_string());
    log.add_error("Print job".to_string(), "Printer error: gone".to_string());
    log.add_entry("Other".to_string(), LogStatus::Error, None);

    let newest = log.entry(0).unwrap();
    assert_eq!(newest.summary, "Other");
    assert_eq!(newest.status, LogStatus::Error);
    assert_eq!(newest.error, None);

    let failed = log.entry(1).unwrap();
    assert_eq!(failed.summary, "Print job");
    assert_eq!(failed.status, LogStatus::Error);
    assert_eq!(failed.error.as_deref(), Some("Printer error: gone"));
    assert!(failed.commands.is_none());

    let printed = log.entry(2).unwrap();
    assert_eq!(printed.summary, "Test print");
    assert_eq!(printed.status, LogStatus::Success);
    assert_eq!(printed.error, None);
    // Some time in this century.
    assert!(printed.timestamp > 946_684_800_000);
    assert!(printed.timestamp < 4_102_444_800_000);
    assert!(printed.timestamp <= failed.timestamp);
}

#[test]
fn jobs_can_be_kept_for_a_preview() {
    let job = || vec![Command::Writeln("hi".to_string()), Command::PrintCut(None)];
    let mut log = PrintLog::new(10);
    log.add_success_with_commands("Print job (2 commands)".to_string(), job());
    log.add_error_with_commands("Print job (2 commands)".to_string(), "gone".to_string(), job());

    let failed = log.entry(0).unwrap();
    assert_eq!(failed.status, LogStatus::Error);
    assert_eq!(failed.error.as_deref(), Some("gone"));
    assert!(failed.commands.as_ref().unwrap() == &job());

    let printed = log.entry(1).unwrap();
    assert_eq!(printed.status, LogStatus::Success);
    assert!(printed.commands.as_ref().unwrap() == &job());
}

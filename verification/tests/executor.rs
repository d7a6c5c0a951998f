use reika_printer::error::PrinterFault;
use reika_printer::executor::{Batch, BatchOutcome, Step};

fn io(text: &str) -> PrinterFault {
    PrinterFault::Io(text.to_string())
}

#[test]
fn framed_batch_sends_init_then_commands_then_cut() {
    let mut batch = Batch::new(2);
    let mut sent = Vec::new();
    while let Some(step) = batch.pending() {
        sent.push(step);
        assert!(matches!(batch.outcome(), BatchOutcome::Running));
        batch.record(Ok(()));
    }
    assert_eq!(sent, vec![Step::Init, Step::Command(0), Step::Command(1), Step::FinalCut]);
    assert!(matches!(batch.outcome(), BatchOutcome::Completed));
}

#[test]
fn empty_framed_batch_still_initializes_and_cuts() {
    let mut batch = Batch::new(0);
    assert_eq!(batch.pending(), Some(Step::Init));
    batch.record(Ok(()));
    assert_eq!(batch.pending(), Some(Step::FinalCut));
    batch.record(Ok(()));
    assert_eq!(batch.pending(), None);
    assert!(matches!(batch.outcome(), BatchOutcome::Completed));
}

#[test]
fn prepared_batch_sends_the_commands_only() {
    let mut batch = Batch::prepared(3);
    let mut sent = Vec::new();
    while let Some(step) = batch.pending() {
        sent.push(step);
        batch.record(Ok(()));
    }
    assert_eq!(sent, vec![Step::Command(0), Step::Command(1), Step::Command(2)]);
    assert!(matches!(batch.outcome(), BatchOutcome::Completed));

    let empty = Batch::prepared(0);
    assert_eq!(empty.pending(), None);
    assert!(matches!(empty.outcome(), BatchOutcome::Completed));
}

#[test]
fn first_failure_aborts_the_batch_without_a_cut() {
    let mut batch = Batch::new(3);
    batch.record(Ok(()));
    batch.record(Ok(()));
    assert_eq!(batch.pending(), Some(Step::Command(1)));
    batch.record(Err(io("stalled")));
    assert_eq!(batch.pending(), None);
    match batch.outcome() {
        BatchOutcome::Failed { step, fault: PrinterFault::Io(text) } => {
            assert_eq!(step, Step::Command(1));
            assert_eq!(text, "stalled");
        }
        other => panic!("unexpected outcome {:?}", other),
    }

    // Nothing that is reported afterwards changes the verdict.
    batch.record(Ok(()));
    batch.record(Err(io("later")));
    assert_eq!(batch.pending(), None);
    assert!(matches!(
        batch.outcome(),
        BatchOutcome::Failed { step: Step::Command(1), fault: PrinterFault::Io(_) }
    ));
}

#[test]
fn failure_of_init_and_of_the_cut_are_named() {
    let mut batch = Batch::new(1);
    batch.record(Err(PrinterFault::Input("bad".to_string())));
    assert!(matches!(
        batch.outcome(),
        BatchOutcome::Failed { step: Step::Init, fault: PrinterFault::Input(_) }
    ));

    let mut batch = Batch::new(1);
    batch.record(Ok(()));
    batch.record(Ok(()));
    assert_eq!(batch.pending(), Some(Step::FinalCut));
    batch.record(Err(PrinterFault::InvalidResponse("?".to_string())));
    assert!(matches!(
        batch.outcome(),
        BatchOutcome::Failed { step: Step::FinalCut, fault: PrinterFault::InvalidResponse(_) }
    ));
}

#[test]
fn completed_batch_ignores_further_reports() {
    let mut batch = Batch::prepared(1);
    batch.record(Ok(()));
    assert!(matches!(batch.outcome(), BatchOutcome::Completed));
    batch.record(Err(io("late")));
    assert!(matches!(batch.outcome(), BatchOutcome::Completed));
}

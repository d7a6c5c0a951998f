use reika_printer::sensor::{ReporterAction, ReporterInput, SensorEvent, SensorReporter, SensorState};

fn reporter() -> SensorReporter {
    SensorReporter::new("sensor-key".to_string(), "https://dash.example".to_string())
        .expect("a key is configured")
}

#[test]
fn no_reporter_without_a_credential() {
    assert!(SensorReporter::new(String::new(), "https://dash.example".to_string()).is_none());
    assert!(SensorReporter::new("k".to_string(), String::new()).is_some());
}

#[test]
fn a_new_reporter_is_offline() {
    let reporter = reporter();
    assert_eq!(reporter.current_state(), SensorState::Offline);
    assert_eq!(reporter.api_key(), "sensor-key");
    assert_eq!(reporter.report_url(), "https://dash.example/api/sensors/report");
}

#[test]
fn states_as_the_dashboard_spells_them() {
    assert_eq!(SensorState::Online.as_str(), "ONLINE");
    assert_eq!(SensorState::Offline.as_str(), "OFFLINE");
    assert_eq!(SensorState::UsbError.as_str(), "USB_ERROR");
    assert_eq!(SensorState::PrintFail.as_str(), "PRINT_FAIL");
}

#[test]
fn heartbeat_reports_the_current_state() {
    let mut reporter = reporter();
    assert_eq!(reporter.handle(&ReporterInput::Heartbeat), ReporterAction::Report(SensorState::Offline));
    assert_eq!(reporter.current_state(), SensorState::Offline);
    reporter.handle(&ReporterInput::Event(SensorEvent::UsbError("stall".to_string())));
    assert_eq!(reporter.handle(&ReporterInput::Heartbeat), ReporterAction::Report(SensorState::UsbError));
    assert_eq!(reporter.handle(&ReporterInput::Heartbeat), ReporterAction::Report(SensorState::UsbError));
}

#[test]
fn status_is_reported_only_when_it_changes_the_state() {
    let mut reporter = reporter();
    assert_eq!(reporter.handle(&ReporterInput::StatusChanged(false)), ReporterAction::Idle);
    assert_eq!(
        reporter.handle(&ReporterInput::StatusChanged(true)),
        ReporterAction::Report(SensorState::Online)
    );
    assert_eq!(reporter.current_state(), SensorState::Online);
    assert_eq!(reporter.handle(&ReporterInput::StatusChanged(true)), ReporterAction::Idle);
    assert_eq!(
        reporter.handle(&ReporterInput::StatusChanged(false)),
        ReporterAction::Report(SensorState::Offline)
    );
    assert_eq!(reporter.current_state(), SensorState::Offline);
}

#[test]
fn events_are_reported_at_once_and_every_time() {
    let mut reporter = reporter();
    let usb = || ReporterInput::Event(SensorEvent::UsbError("short write".to_string()));
    let print = || ReporterInput::Event(SensorEvent::PrintFail("attempt=1".to_string()));
    assert_eq!(reporter.handle(&usb()), ReporterAction::Report(SensorState::UsbError));
    assert_eq!(reporter.handle(&usb()), ReporterAction::Report(SensorState::UsbError));
    assert_eq!(reporter.handle(&print()), ReporterAction::Report(SensorState::PrintFail));
    assert_eq!(reporter.current_state(), SensorState::PrintFail);
    // Coming back online replaces the error state.
    assert_eq!(
        reporter.handle(&ReporterInput::StatusChanged(true)),
        ReporterAction::Report(SensorState::Online)
    );
    // An error state is replaced by offline as well.
    reporter.handle(&print());
    assert_eq!(
        reporter.handle(&ReporterInput::StatusChanged(false)),
        ReporterAction::Report(SensorState::Offline)
    );
}

#[test]
fn reporter_stops_when_the_status_has_no_writer() {
    let mut reporter = reporter();
    reporter.handle(&ReporterInput::StatusChanged(true));
    assert_eq!(reporter.handle(&ReporterInput::StatusClosed), ReporterAction::Stop);
    assert_eq!(reporter.current_state(), SensorState::Online);
}

#[test]
fn events_can_be_copied() {
    let event = SensorEvent::PrintFail("x".to_string());
    assert!(matches!(event.clone(), SensorEvent::PrintFail(text) if text == "x"));
    let event = SensorEvent::UsbError("y".to_string());
    assert!(matches!(event.clone(), SensorEvent::UsbError(text) if text == "y"));
}

use reika_printer::error::PrinterFault;
use reika_printer::sensor::SensorEvent;
use reika_printer::transport::{
    check_write, claim_decision, discover_endpoints, find_device, last_bulk_endpoint,
    must_detach_kernel_driver, resolve_endpoints, transport_name, ClaimDecision, DeviceId,
    Direction, EndpointInfo, Endpoints, InterfaceInfo, OpenAction, OpenEvent, OpenPhase,
    TransferType, TransportError, UsbConfig, CLAIM_RETRY_DELAY_MS, DEFAULT_TIMEOUT_SECONDS,
    MAX_CLAIM_ATTEMPTS,
};

fn endpoint(address: u8, direction: Direction, transfer_type: TransferType) -> EndpointInfo {
    EndpointInfo { address, direction, transfer_type }
}

fn bulk_in(address: u8) -> EndpointInfo {
    endpoint(address, Direction::In, TransferType::Bulk)
}

fn bulk_out(address: u8) -> EndpointInfo {
    endpoint(address, Direction::Out, TransferType::Bulk)
}

fn auto_config() -> UsbConfig {
    UsbConfig { vendor_id: 0x0483, product_id: 0x5840, endpoint: None, interface: None }
}

fn printer_interfaces() -> Vec<InterfaceInfo> {
    vec![
        InterfaceInfo {
            number: 0,
            endpoints: vec![endpoint(0x83, Direction::In, TransferType::Interrupt)],
        },
        InterfaceInfo { number: 1, endpoints: vec![bulk_out(0x02), bulk_in(0x82)] },
        InterfaceInfo { number: 2, endpoints: vec![bulk_out(0x04), bulk_in(0x84)] },
    ]
}

#[test]
fn constants_of_the_transport() {
    assert_eq!(DEFAULT_TIMEOUT_SECONDS, 5);
    assert_eq!(MAX_CLAIM_ATTEMPTS, 5);
    assert_eq!(CLAIM_RETRY_DELAY_MS, 100);
}

#[test]
fn pinned_endpoint_derives_the_input_endpoint() {
    for ep in [0u8, 1, 2, 0x0F, 0x7F, 0x80, 0x81, 0xFF] {
        let config = UsbConfig { endpoint: Some(ep), interface: Some(3), ..auto_config() };
        let resolved = resolve_endpoints(&config, &Vec::new()).unwrap();
        assert_eq!(resolved, Endpoints { output: ep, input: ep | 0x80, interface: 3 });
        let resolved = resolve_endpoints(&config, &printer_interfaces()).unwrap();
        assert_eq!(resolved, Endpoints { output: ep, input: ep | 0x80, interface: 3 });
    }
}

#[test]
fn discovery_takes_the_first_interface_with_a_bulk_pair() {
    let found = resolve_endpoints(&auto_config(), &printer_interfaces()).unwrap();
    assert_eq!(found, Endpoints { output: 0x02, input: 0x82, interface: 1 });
    assert_eq!(discover_endpoints(&printer_interfaces()).unwrap(), found);
}

#[test]
fn half_pinned_configuration_falls_back_to_discovery() {
    let only_endpoint = UsbConfig { endpoint: Some(9), ..auto_config() };
    let only_interface = UsbConfig { interface: Some(9), ..auto_config() };
    for config in [only_endpoint, only_interface] {
        let found = resolve_endpoints(&config, &printer_interfaces()).unwrap();
        assert_eq!(found, Endpoints { output: 0x02, input: 0x82, interface: 1 });
        assert!(matches!(
            resolve_endpoints(&config, &Vec::new()),
            Err(TransportError::NoEndpoints)
        ));
    }
}

#[test]
fn discovery_fails_without_a_bulk_pair() {
    let interfaces = vec![
        InterfaceInfo { number: 0, endpoints: vec![bulk_in(0x81)] },
        InterfaceInfo { number: 1, endpoints: vec![bulk_out(0x01)] },
        InterfaceInfo {
            number: 2,
            endpoints: vec![
                endpoint(0x02, Direction::Out, TransferType::Interrupt),
                endpoint(0x82, Direction::In, TransferType::Isochronous),
                endpoint(0x00, Direction::Out, TransferType::Control),
            ],
        },
        InterfaceInfo { number: 3, endpoints: vec![] },
    ];
    match resolve_endpoints(&auto_config(), &interfaces) {
        Err(error) => {
            assert!(matches!(error, TransportError::NoEndpoints));
            assert_eq!(
                error.to_string(),
                "no suitable endpoints or interface number found for USB device"
            );
        }
        Ok(found) => panic!("found {:?}", found),
    }
    assert!(matches!(discover_endpoints(&Vec::new()), Err(TransportError::NoEndpoints)));
}

#[test]
fn the_last_bulk_endpoint_of_each_direction_is_taken() {
    let endpoints = vec![
        bulk_out(0x01),
        bulk_in(0x81),
        endpoint(0x85, Direction::In, TransferType::Interrupt),
        bulk_out(0x03),
        bulk_in(0x84),
        endpoint(0x06, Direction::Out, TransferType::Interrupt),
    ];
    assert_eq!(last_bulk_endpoint(&endpoints, Direction::Out), Some(0x03));
    assert_eq!(last_bulk_endpoint(&endpoints, Direction::In), Some(0x84));
    assert_eq!(last_bulk_endpoint(&Vec::new(), Direction::In), None);
    let interfaces = vec![InterfaceInfo { number: 7, endpoints }];
    assert_eq!(
        discover_endpoints(&interfaces).unwrap(),
        Endpoints { output: 0x03, input: 0x84, interface: 7 }
    );
}

#[test]
fn the_first_matching_device_is_chosen() {
    let devices = vec![
        DeviceId { vendor_id: 0x1D6B, product_id: 0x0002 },
        DeviceId { vendor_id: 0x0483, product_id: 0x0001 },
        DeviceId { vendor_id: 0x0001, product_id: 0x5840 },
        DeviceId { vendor_id: 0x0483, product_id: 0x5840 },
        DeviceId { vendor_id: 0x0483, product_id: 0x5840 },
    ];
    assert_eq!(find_device(&auto_config(), &devices).unwrap(), 3);
    match find_device(&auto_config(), &devices[..3].to_vec()) {
        Err(error) => {
            assert!(matches!(error, TransportError::DeviceNotFound));
            assert_eq!(error.to_string(), "USB device not found");
        }
        Ok(i) => panic!("found {}", i),
    }
    assert!(matches!(
        find_device(&auto_config(), &Vec::new()),
        Err(TransportError::DeviceNotFound)
    ));
}

#[test]
fn a_complete_write_succeeds() {
    assert!(check_write(2, 10, Ok(10)).is_ok());
    assert!(check_write(2, 0, Ok(0)).is_ok());
}

#[test]
fn a_short_write_is_a_failure_though_the_bus_reported_none() {
    for written in [0usize, 1, 4, 9, 11] {
        let failure = check_write(2, 10, Ok(written)).unwrap_err();
        match &failure.error {
            TransportError::PartialWrite { endpoint, expected, written: w } => {
                assert_eq!((*endpoint, *expected, *w), (2, 10, written));
            }
            other => panic!("unexpected error {:?}", other),
        }
        assert_eq!(
            failure.error.to_string(),
            format!("USB write incomplete: expected 10 bytes, wrote {} bytes to endpoint 0x02", written)
        );
        match &failure.event {
            SensorEvent::UsbError(notice) => assert_eq!(
                notice,
                &format!("USB partial write: wrote {}/10 bytes to endpoint 0x02", written)
            ),
            other => panic!("unexpected event {:?}", other),
        }
    }
}

#[test]
fn a_failed_write_is_reported_with_its_cause() {
    let failure = check_write(0x1F, 64, Err("Operation timed out".to_string())).unwrap_err();
    match &failure.error {
        TransportError::WriteFailed { endpoint, detail } => {
            assert_eq!(*endpoint, 0x1F);
            assert_eq!(detail, "Operation timed out");
        }
        other => panic!("unexpected error {:?}", other),
    }
    assert_eq!(
        failure.error.to_string(),
        "write_bulk to endpoint 0x1F failed: Operation timed out"
    );
    match &failure.event {
        SensorEvent::UsbError(notice) => {
            assert_eq!(notice, "USB write failed to endpoint 0x1F: Operation timed out")
        }
        other => panic!("unexpected event {:?}", other),
    }
    match failure.error.to_fault() {
        PrinterFault::Io(text) => {
            assert_eq!(text, "write_bulk to endpoint 0x1F failed: Operation timed out")
        }
        other => panic!("unexpected fault {:?}", other),
    }
}

#[test]
fn other_errors_speak_with_the_words_of_the_bus() {
    let claim = TransportError::ClaimFailed { interface: 1, retries: 5, detail: "Resource busy".to_string() };
    assert_eq!(claim.to_string(), "Resource busy");
    assert_eq!(TransportError::Usb("No such device".to_string()).to_string(), "No such device");
}

#[test]
fn transport_names_itself_with_ids_and_endpoints() {
    let endpoints = Endpoints { output: 0x01, input: 0x81, interface: 0 };
    assert_eq!(
        transport_name(0x0483, 0x5840, &endpoints),
        "CustomUSB (VID: 0x0483, PID: 0x5840, out: 0x01, in: 0x81)"
    );
    let endpoints = Endpoints { output: 0x0A, input: 0xFF, interface: 2 };
    assert_eq!(
        transport_name(0x0FE6, 0x811E, &endpoints),
        "CustomUSB (VID: 0x0FE6, PID: 0x811E, out: 0x0A, in: 0xFF)"
    );
}

#[test]
fn a_failed_claim_is_repeated_five_times() {
    assert_eq!(claim_decision(true, 0), ClaimDecision::Claimed);
    assert_eq!(claim_decision(true, 5), ClaimDecision::Claimed);
    for retries in 0..5 {
        assert_eq!(claim_decision(false, retries), ClaimDecision::RetryAfter(100));
    }
    assert_eq!(claim_decision(false, 5), ClaimDecision::GiveUp);
    assert_eq!(claim_decision(false, u32::MAX), ClaimDecision::GiveUp);
}

#[test]
fn kernel_driver_is_detached_only_where_one_is_bound() {
    assert!(must_detach_kernel_driver(true, true));
    assert!(!must_detach_kernel_driver(true, false));
    assert!(!must_detach_kernel_driver(false, true));
    assert!(!must_detach_kernel_driver(false, false));
}

fn devices() -> Vec<DeviceId> {
    vec![
        DeviceId { vendor_id: 0x1D6B, product_id: 0x0002 },
        DeviceId { vendor_id: 0x0483, product_id: 0x5840 },
    ]
}

#[test]
fn opening_walks_through_its_phases() {
    let config = auto_config();
    let mut actions = Vec::new();
    let mut phase = OpenPhase::start();
    actions.push(phase.action());
    phase = phase.advance(&config, true, OpenEvent::Devices(devices()));
    actions.push(phase.action());
    phase = phase.advance(&config, true, OpenEvent::Interfaces(printer_interfaces()));
    actions.push(phase.action());
    phase = phase.advance(&config, true, OpenEvent::Done);
    actions.push(phase.action());
    phase = phase.advance(&config, true, OpenEvent::KernelDriver(true));
    actions.push(phase.action());
    phase = phase.advance(&config, true, OpenEvent::Done);
    actions.push(phase.action());
    phase = phase.advance(&config, true, OpenEvent::Done);
    actions.push(phase.action());
    phase = phase.advance(&config, true, OpenEvent::Done);
    actions.push(phase.action());
    assert_eq!(
        actions,
        vec![
            OpenAction::ListDevices,
            OpenAction::ReadInterfaces(1),
            OpenAction::OpenDevice(1),
            OpenAction::QueryKernelDriver(1),
            OpenAction::DetachKernelDriver(1),
            OpenAction::ClaimInterface(1),
            OpenAction::ClearHalt(0x02),
            OpenAction::Finish,
        ]
    );
    match phase {
        OpenPhase::Ready { endpoints } => {
            assert_eq!(endpoints, Endpoints { output: 0x02, input: 0x82, interface: 1 })
        }
        other => panic!("unexpected phase {:?}", other),
    }
}

#[test]
fn opening_skips_the_kernel_driver_where_none_is_bound() {
    let config = UsbConfig { endpoint: Some(1), interface: Some(0), ..auto_config() };
    let mut phase = OpenPhase::start();
    phase = phase.advance(&config, false, OpenEvent::Devices(devices()));
    phase = phase.advance(&config, false, OpenEvent::Interfaces(Vec::new()));
    assert_eq!(phase.action(), OpenAction::OpenDevice(1));
    phase = phase.advance(&config, false, OpenEvent::Done);
    assert_eq!(phase.action(), OpenAction::ClaimInterface(0));

    let mut phase = OpenPhase::start();
    phase = phase.advance(&config, true, OpenEvent::Devices(devices()));
    phase = phase.advance(&config, true, OpenEvent::Interfaces(Vec::new()));
    phase = phase.advance(&config, true, OpenEvent::Done);
    assert_eq!(phase.action(), OpenAction::QueryKernelDriver(0));
    phase = phase.advance(&config, true, OpenEvent::KernelDriver(false));
    assert_eq!(phase.action(), OpenAction::ClaimInterface(0));
}

fn claiming() -> OpenPhase {
    OpenPhase::Claiming { endpoints: Endpoints { output: 1, input: 0x81, interface: 0 }, retries: 0 }
}

#[test]
fn opening_gives_up_the_claim_after_five_repeats() {
    let config = auto_config();
    let mut phase = claiming();
    let mut claims = 0;
    let mut waits = 0;
    loop {
        match phase.action() {
            OpenAction::ClaimInterface(0) => {
                claims += 1;
                phase = phase.advance(&config, true, OpenEvent::Failed("Resource busy".to_string()));
            }
            OpenAction::Wait(ms) => {
                assert_eq!(ms, 100);
                waits += 1;
                phase = phase.advance(&config, true, OpenEvent::Done);
            }
            OpenAction::Finish => break,
            other => panic!("unexpected action {:?}", other),
        }
    }
    assert_eq!(claims, 6);
    assert_eq!(waits, 5);
    match phase {
        OpenPhase::Failed { error: TransportError::ClaimFailed { interface, retries, detail } } => {
            assert_eq!((interface, retries), (0, 5));
            assert_eq!(detail, "Resource busy");
        }
        other => panic!("unexpected phase {:?}", other),
    }
}

#[test]
fn opening_goes_on_when_a_repeated_claim_succeeds() {
    let config = auto_config();
    let mut phase = claiming();
    phase = phase.advance(&config, true, OpenEvent::Failed("busy".to_string()));
    assert_eq!(phase.action(), OpenAction::Wait(100));
    phase = phase.advance(&config, true, OpenEvent::Done);
    assert_eq!(phase.action(), OpenAction::ClaimInterface(0));
    phase = phase.advance(&config, true, OpenEvent::Done);
    assert_eq!(phase.action(), OpenAction::ClearHalt(1));
}

#[test]
fn a_halt_that_cannot_be_cleared_does_not_stop_the_opening() {
    let config = auto_config();
    let endpoints = Endpoints { output: 1, input: 0x81, interface: 0 };
    let phase = OpenPhase::ClearingHalt { endpoints };
    let phase = phase.advance(&config, true, OpenEvent::Failed("Not supported".to_string()));
    assert!(matches!(phase, OpenPhase::Ready { endpoints: e } if e == endpoints));
    assert_eq!(phase.action(), OpenAction::Finish);
}

#[test]
fn opening_fails_when_the_bus_fails() {
    let config = auto_config();
    let failed = || OpenEvent::Failed("Input/Output Error".to_string());

    let phase = OpenPhase::start().advance(&config, true, failed());
    assert!(matches!(&phase, OpenPhase::Failed { error: TransportError::Usb(d) } if d == "Input/Output Error"));
    assert_eq!(phase.action(), OpenAction::Finish);

    let phase = OpenPhase::start().advance(&config, true, OpenEvent::Devices(Vec::new()));
    assert!(matches!(phase, OpenPhase::Failed { error: TransportError::DeviceNotFound }));

    let phase = OpenPhase::start()
        .advance(&config, true, OpenEvent::Devices(devices()))
        .advance(&config, true, OpenEvent::Interfaces(Vec::new()));
    assert!(matches!(phase, OpenPhase::Failed { error: TransportError::NoEndpoints }));

    let phase = OpenPhase::start()
        .advance(&config, true, OpenEvent::Devices(devices()))
        .advance(&config, true, failed());
    assert!(matches!(phase, OpenPhase::Failed { error: TransportError::Usb(_) }));

    let endpoints = Endpoints { output: 1, input: 0x81, interface: 0 };
    let phase = OpenPhase::OpeningDevice { device: 0, endpoints }.advance(&config, true, failed());
    assert!(matches!(phase, OpenPhase::Failed { error: TransportError::Usb(_) }));
    let phase = OpenPhase::QueryingKernelDriver { endpoints }.advance(&config, true, failed());
    assert!(matches!(phase, OpenPhase::Failed { error: TransportError::Usb(_) }));
    let phase = OpenPhase::DetachingKernelDriver { endpoints }.advance(&config, true, failed());
    assert!(matches!(phase, OpenPhase::Failed { error: TransportError::Usb(_) }));

    // A failure stays a failure.
    let phase = phase.advance(&config, true, OpenEvent::Done);
    assert!(matches!(phase, OpenPhase::Failed { error: TransportError::Usb(_) }));
}

#[test]
fn events_that_a_phase_does_not_wait_for_change_nothing() {
    let config = auto_config();
    let phase = OpenPhase::start().advance(&config, true, OpenEvent::Done);
    assert!(matches!(phase, OpenPhase::Enumerating));
    let phase = phase.advance(&config, true, OpenEvent::KernelDriver(true));
    assert!(matches!(phase, OpenPhase::Enumerating));
    let phase = claiming().advance(&config, true, OpenEvent::Devices(devices()));
    assert!(matches!(phase, OpenPhase::Claiming { retries: 0, .. }));
    let endpoints = Endpoints { output: 1, input: 0x81, interface: 0 };
    let phase = OpenPhase::Pausing { endpoints, retries: 2 }
        .advance(&config, true, OpenEvent::Failed("x".to_string()));
    assert!(matches!(phase, OpenPhase::Pausing { retries: 2, .. }));
    let phase = OpenPhase::Ready { endpoints }.advance(&config, true, OpenEvent::Failed("x".to_string()));
    assert!(matches!(phase, OpenPhase::Ready { .. }));
}

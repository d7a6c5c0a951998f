//! Decisions of the USB transport: which device to open, which endpoints to
//! talk to, how long to insist on claiming the interface, and when a write
//! counts as failed.
//!
//! The transfers themselves are made by the caller, which describes what it
//! found on the bus in the plain types of this module.

use vstd::prelude::*;
use crate::error::PrinterFault;
use crate::sensor::SensorEvent;
use crate::text::{decimal, hex2_upper, hex4_upper, push_decimal, push_hex2_upper, push_hex4_upper};

verus! {

/// Seconds after which a blocked transfer is given up.
pub const DEFAULT_TIMEOUT_SECONDS: u64 = 5;

/// How often a failed claim of the interface is tried again.
pub const MAX_CLAIM_ATTEMPTS: u32 = 5;

/// Milliseconds between two attempts to claim the interface.
pub const CLAIM_RETRY_DELAY_MS: u64 = 100;

/// Selects the printer on the bus and, optionally, pins its endpoints.
#[derive(Debug, Clone, Copy)]
pub struct UsbConfig {
    pub vendor_id: u16,
    pub product_id: u16,
    pub endpoint: Option<u8>,
    pub interface: Option<u8>,
}

/// Identity of a device found on the bus.
#[derive(Debug, Clone, Copy)]
pub struct DeviceId {
    pub vendor_id: u16,
    pub product_id: u16,
}

/// Direction of an endpoint, seen from the host.
#[derive(Debug, Clone, Copy, PartialEq, Eq, Structural)]
pub enum Direction {
    In,
    Out,
}

/// Kind of transfer that an endpoint carries.
#[derive(Debug, Clone, Copy, PartialEq, Eq, Structural)]
pub enum TransferType {
    Control,
    Isochronous,
    Bulk,
    Interrupt,
}

/// One endpoint of an interface.
#[derive(Debug, Clone, Copy)]
pub struct EndpointInfo {
    pub address: u8,
    pub direction: Direction,
    pub transfer_type: TransferType,
}

/// One interface setting of the active configuration, with its endpoints in
/// descriptor order.
#[derive(Debug)]
pub struct InterfaceInfo {
    pub number: u8,
    pub endpoints: Vec<EndpointInfo>,
}

/// The addresses that the transport talks to.
#[derive(Debug, Clone, Copy, PartialEq, Eq, Structural)]
pub struct Endpoints {
    pub output: u8,
    pub input: u8,
    pub interface: u8,
}

/// Why the transport could not be opened or used.
#[derive(Debug)]
pub enum TransportError {
    /// No device on the bus has the configured identity.
    DeviceNotFound,
    /// No interface of the device offers a bulk endpoint in each direction.
    NoEndpoints,
    /// The interface could not be claimed, not even after `retries` repeats.
    ClaimFailed { interface: u8, retries: u32, detail: String },
    /// A write ended without error after moving only part of the data.
    PartialWrite { endpoint: u8, expected: usize, written: usize },
    /// A write failed.
    WriteFailed { endpoint: u8, detail: String },
    /// Another operation on the bus failed.
    Usb(String),
}

impl UsbConfig {
    /// Whether the configuration pins the endpoints instead of leaving them
    /// to discovery: it does when it names both an endpoint and an interface.
    pub open spec fn is_manual(&self) -> bool {
        self.endpoint is Some && self.interface is Some
    }

    /// Whether a device on the bus is the one this configuration selects.
    pub open spec fn selects(&self, device: DeviceId) -> bool {
        device.vendor_id == self.vendor_id && device.product_id == self.product_id
    }
}

/// The input endpoint that belongs to a pinned output endpoint: the same
/// number with the direction bit set.
pub open spec fn input_of(endpoint: u8) -> u8 {
    endpoint | 0x80
}

impl EndpointInfo {
    /// A bulk endpoint of the given direction.
    pub open spec fn is_bulk(&self, direction: Direction) -> bool {
        self.transfer_type == TransferType::Bulk && self.direction == direction
    }
}

/// Address of the last bulk endpoint of the given direction, if there is one.
pub open spec fn last_bulk(endpoints: Seq<EndpointInfo>, direction: Direction) -> Option<u8>
    decreases endpoints.len(),
{
    if endpoints.len() == 0 {
        None
    } else if endpoints.last().is_bulk(direction) {
        Some(endpoints.last().address)
    } else {
        last_bulk(endpoints.drop_last(), direction)
    }
}

impl InterfaceInfo {
    /// The interface exposes a bulk endpoint in each direction.
    pub open spec fn has_bulk_pair(&self) -> bool {
        &&& exists|i: int| 0 <= i < self.endpoints@.len() && self.endpoints@[i].is_bulk(Direction::In)
        &&& exists|j: int|
            0 <= j < self.endpoints@.len() && self.endpoints@[j].is_bulk(
                Direction::Out,
            )
    }

    /// The endpoints that discovery takes from this interface: of each
    /// direction, the last bulk endpoint listed.
    pub open spec fn bulk_pair(&self) -> Option<Endpoints> {
        match (last_bulk(self.endpoints@, Direction::Out), last_bulk(self.endpoints@, Direction::In)) {
            (Some(output), Some(input)) => Some(Endpoints { output, input, interface: self.number }),
            _ => None,
        }
    }
}

/// What discovery finds: the bulk pair of the first interface that has one.
pub open spec fn discovered(interfaces: Seq<InterfaceInfo>) -> Option<Endpoints>
    decreases interfaces.len(),
{
    if interfaces.len() == 0 {
        None
    } else if interfaces.first().bulk_pair() is Some {
        interfaces.first().bulk_pair()
    } else {
        discovered(interfaces.drop_first())
    }
}

/// The endpoints that a configuration resolves to on a device with the
/// given interfaces.
pub open spec fn resolved(config: UsbConfig, interfaces: Seq<InterfaceInfo>) -> Option<Endpoints> {
    if config.is_manual() {
        Some(
            Endpoints {
                output: config.endpoint->0,
                input: input_of(config.endpoint->0),
                interface: config.interface->0,
            },
        )
    } else {
        discovered(interfaces)
    }
}

/// Position of the first device that the configuration selects.
pub open spec fn first_match(config: UsbConfig, devices: Seq<DeviceId>) -> Option<int>
    decreases devices.len(),
{
    if devices.len() == 0 {
        None
    } else if config.selects(devices.first()) {
        Some(0int)
    } else {
        match first_match(config, devices.drop_first()) {
            Some(i) => Some(i + 1),
            None => None,
        }
    }
}

/// A bulk endpoint of a direction is found exactly when one is listed.
pub proof fn lemma_last_bulk(endpoints: Seq<EndpointInfo>, direction: Direction)
    ensures
        last_bulk(endpoints, direction) is Some <==> exists|i: int|
            0 <= i < endpoints.len() && endpoints[i].is_bulk(direction),
        last_bulk(endpoints, direction) matches Some(address) ==> exists|i: int|
            {
                &&& 0 <= i < endpoints.len()
                &&& endpoints[i].is_bulk(direction)
                &&& endpoints[i].address == address
                &&& forall|j: int| i < j < endpoints.len() ==> !endpoints[j].is_bulk(direction)
            },
    decreases endpoints.len(),
{
    if endpoints.len() == 0 {
    } else if endpoints.last().is_bulk(direction) {
        let i = endpoints.len() - 1;
        assert(endpoints[i].is_bulk(direction));
    } else {
        let rest = endpoints.drop_last();
        lemma_last_bulk(rest, direction);
        if last_bulk(rest, direction) is Some {
            let i = choose|i: int|
                {
                    &&& 0 <= i < rest.len()
                    &&& rest[i].is_bulk(direction)
                    &&& rest[i].address == last_bulk(rest, direction)->0
                    &&& forall|j: int| i < j < rest.len() ==> !rest[j].is_bulk(direction)
                };
            assert(endpoints[i].is_bulk(direction));
            assert(forall|j: int| i < j < endpoints.len() ==> !endpoints[j].is_bulk(direction)) by {
                assert forall|j: int| i < j < endpoints.len() implies !endpoints[j].is_bulk(
                    direction,
                ) by {
                    if j < rest.len() {
                        assert(rest[j] == endpoints[j]);
                    }
                }
            }
        }
        if exists|i: int| 0 <= i < endpoints.len() && endpoints[i].is_bulk(direction) {
            let i = choose|i: int| 0 <= i < endpoints.len() && endpoints[i].is_bulk(direction);
            assert(i < rest.len());
            assert(rest[i].is_bulk(direction));
        }
    }
}

/// An interface yields endpoints exactly when it has a bulk endpoint in each
/// direction.
pub proof fn lemma_bulk_pair(interface: InterfaceInfo)
    ensures
        interface.bulk_pair() is Some <==> interface.has_bulk_pair(),
{
    lemma_last_bulk(interface.endpoints@, Direction::In);
    lemma_last_bulk(interface.endpoints@, Direction::Out);
}

/// Endpoint resolution.
///
/// With both an endpoint and an interface configured, resolution succeeds
/// whatever the device offers, and the input endpoint is the configured
/// endpoint with the direction bit set.  Otherwise it succeeds exactly when
/// some interface has a bulk endpoint in each direction, and then takes the
/// first such interface.
pub proof fn lemma_resolution(config: UsbConfig, interfaces: Seq<InterfaceInfo>)
    ensures
        config.is_manual() ==> resolved(config, interfaces) == Some(
            Endpoints {
                output: config.endpoint->0,
                input: config.endpoint->0 | 0x80,
                interface: config.interface->0,
            },
        ),
        !config.is_manual() ==> (resolved(config, interfaces) is Some <==> exists|k: int|
            0 <= k < interfaces.len() && interfaces[k].has_bulk_pair()),
        !config.is_manual() ==> (resolved(config, interfaces) matches Some(e) ==> exists|k: int|
            {
                &&& 0 <= k < interfaces.len()
                &&& interfaces[k].bulk_pair() == Some(e)
                &&& forall|j: int| 0 <= j < k ==> !interfaces[j].has_bulk_pair()
            }),
    decreases interfaces.len(),
{
    if !config.is_manual() {
        if interfaces.len() == 0 {
        } else {
            let head = interfaces.first();
            let rest = interfaces.drop_first();
            lemma_bulk_pair(head);
            lemma_resolution(config, rest);
            if head.bulk_pair() is Some {
                assert(interfaces[0].has_bulk_pair());
                assert(interfaces[0].bulk_pair() == resolved(config, interfaces));
            } else {
                if discovered(rest) is Some {
                    let k = choose|k: int|
                        {
                            &&& 0 <= k < rest.len()
                            &&& rest[k].bulk_pair() == discovered(rest)
                            &&& forall|j: int| 0 <= j < k ==> !rest[j].has_bulk_pair()
                        };
                    assert(interfaces[k + 1] == rest[k]);
                    lemma_bulk_pair(rest[k]);
                    assert(interfaces[k + 1].has_bulk_pair());
                    assert forall|j: int| 0 <= j < k + 1 implies !interfaces[j].has_bulk_pair() by {
                        if j > 0 {
                            assert(interfaces[j] == rest[j - 1]);
                        }
                    }
                }
                if exists|k: int| 0 <= k < interfaces.len() && interfaces[k].has_bulk_pair() {
                    let k = choose|k: int| 0 <= k < interfaces.len() && interfaces[k].has_bulk_pair();
                    assert(k > 0);
                    assert(rest[k - 1] == interfaces[k]);
                }
            }
        }
    }
}

/// The first device that the configuration selects is the one that
/// [`first_match`] names: it matches, and nothing before it does.
pub proof fn lemma_first_match(config: UsbConfig, devices: Seq<DeviceId>)
    ensures
        match first_match(config, devices) {
            Some(i) => {
                &&& 0 <= i < devices.len()
                &&& config.selects(devices[i])
                &&& forall|j: int| 0 <= j < i ==> !config.selects(devices[j])
            },
            None => forall|j: int| 0 <= j < devices.len() ==> !config.selects(devices[j]),
        },
    decreases devices.len(),
{
    if devices.len() > 0 && !config.selects(devices.first()) {
        let rest = devices.drop_first();
        lemma_first_match(config, rest);
        match first_match(config, rest) {
            Some(i) => {
                assert(devices[i + 1] == rest[i]);
                assert forall|j: int| 0 <= j < i + 1 implies !config.selects(devices[j]) by {
                    if j > 0 {
                        assert(devices[j] == rest[j - 1]);
                    }
                }
            },
            None => {
                assert forall|j: int| 0 <= j < devices.len() implies !config.selects(
                    devices[j],
                ) by {
                    if j > 0 {
                        assert(devices[j] == rest[j - 1]);
                    }
                }
            },
        }
    }
}

proof fn lemma_first_match_skip(config: UsbConfig, devices: Seq<DeviceId>, i: int)
    requires
        0 <= i < devices.len(),
        forall|j: int| 0 <= j < i ==> !config.selects(devices[j]),
    ensures
        first_match(config, devices) == match first_match(config, devices.skip(i)) {
            Some(k) => Some(k + i),
            None => None,
        },
    decreases i,
{
    if i == 0 {
        assert(devices.skip(0) =~= devices);
    } else {
        let rest = devices.drop_first();
        assert(!config.selects(devices[0]));
        assert forall|j: int| 0 <= j < i - 1 implies !config.selects(rest[j]) by {
            assert(rest[j] == devices[j + 1]);
        }
        lemma_first_match_skip(config, rest, i - 1);
        assert(rest.skip(i - 1) =~= devices.skip(i));
    }
}

/// Finds the printer among the devices on the bus, in enumeration order.
pub fn find_device(config: &UsbConfig, devices: &Vec<DeviceId>) -> (r: Result<usize, TransportError>)
    ensures
        match r {
            Ok(i) => first_match(*config, devices@) == Some(i as int),
            Err(e) => first_match(*config, devices@) is None && e is DeviceNotFound,
        },
{
    let mut i: usize = 0;
    while i < devices.len()
        invariant
            i <= devices.len(),
            forall|j: int| 0 <= j < i ==> !config.selects(devices@[j]),
        decreases devices.len() - i,
    {
        if devices[i].vendor_id == config.vendor_id && devices[i].product_id == config.product_id {
            proof {
                lemma_first_match_skip(*config, devices@, i as int);
            }
            return Ok(i);
        }
        i += 1;
    }
    proof {
        lemma_first_match(*config, devices@);
    }
    Err(TransportError::DeviceNotFound)
}

/// Address of the last bulk endpoint of the given direction.
pub fn last_bulk_endpoint(endpoints: &Vec<EndpointInfo>, direction: Direction) -> (r: Option<u8>)
    ensures
        r == last_bulk(endpoints@, direction),
{
    let mut found: Option<u8> = None;
    let mut i: usize = 0;
    while i < endpoints.len()
        invariant
            i <= endpoints.len(),
            found == last_bulk(endpoints@.take(i as int), direction),
        decreases endpoints.len() - i,
    {
        let endpoint = &endpoints[i];
        proof {
            let next = endpoints@.take(i + 1);
            assert(next.drop_last() =~= endpoints@.take(i as int));
            assert(next.last() == endpoints@[i as int]);
        }
        if endpoint.transfer_type == TransferType::Bulk && endpoint.direction == direction {
            found = Some(endpoint.address);
        }
        i += 1;
    }
    assert(endpoints@.take(i as int) =~= endpoints@);
    found
}

/// Looks for the first interface that offers a bulk endpoint in each
/// direction and takes its endpoints.
pub fn discover_endpoints(interfaces: &Vec<InterfaceInfo>) -> (r: Result<Endpoints, TransportError>)
    ensures
        match r {
            Ok(e) => discovered(interfaces@) == Some(e),
            Err(e) => discovered(interfaces@) is None && e is NoEndpoints,
        },
{
    let mut i: usize = 0;
    assert(interfaces@.skip(0) =~= interfaces@);
    while i < interfaces.len()
        invariant
            i <= interfaces.len(),
            discovered(interfaces@) == discovered(interfaces@.skip(i as int)),
        decreases interfaces.len() - i,
    {
        let interface = &interfaces[i];
        let output = last_bulk_endpoint(&interface.endpoints, Direction::Out);
        let input = last_bulk_endpoint(&interface.endpoints, Direction::In);
        proof {
            let rest = interfaces@.skip(i as int);
            assert(rest.first() == interfaces@[i as int]);
            assert(rest.drop_first() =~= interfaces@.skip(i + 1));
        }
        match (output, input) {
            (Some(output), Some(input)) => {
                return Ok(Endpoints { output, input, interface: interface.number });
            },
            _ => {},
        }
        i += 1;
    }
    Err(TransportError::NoEndpoints)
}

/// Settles the endpoints to use: the configured ones where the
/// configuration pins them, the discovered ones otherwise.
pub fn resolve_endpoints(config: &UsbConfig, interfaces: &Vec<InterfaceInfo>) -> (r: Result<
    Endpoints,
    TransportError,
>)
    ensures
        match r {
            Ok(e) => resolved(*config, interfaces@) == Some(e),
            Err(e) => resolved(*config, interfaces@) is None && e is NoEndpoints,
        },
{
    match (config.endpoint, config.interface) {
        (Some(endpoint), Some(interface)) => Ok(
            Endpoints { output: endpoint, input: endpoint | 0x80, interface },
        ),
        _ => discover_endpoints(interfaces),
    }
}

/// What to do after an attempt to claim the interface.
#[derive(Debug, Clone, Copy, PartialEq, Eq, Structural)]
pub enum ClaimDecision {
    /// The interface is claimed.
    Claimed,
    /// Wait this many milliseconds, then claim again.
    RetryAfter(u64),
    /// Stop: the interface cannot be had.
    GiveUp,
}

/// Decides how to go on after an attempt to claim the interface, given how
/// many times the claim has been repeated already.  A failed claim is
/// repeated up to [`MAX_CLAIM_ATTEMPTS`] times, [`CLAIM_RETRY_DELAY_MS`]
/// apart: a previous session may take a moment to let the interface go.
pub fn claim_decision(claimed: bool, retries: u32) -> (r: ClaimDecision)
    ensures
        r == if claimed {
            ClaimDecision::Claimed
        } else if retries < MAX_CLAIM_ATTEMPTS {
            ClaimDecision::RetryAfter(CLAIM_RETRY_DELAY_MS)
        } else {
            ClaimDecision::GiveUp
        },
{
    if claimed {
        ClaimDecision::Claimed
    } else if retries < MAX_CLAIM_ATTEMPTS {
        ClaimDecision::RetryAfter(CLAIM_RETRY_DELAY_MS)
    } else {
        ClaimDecision::GiveUp
    }
}

/// Whether a kernel driver has to be detached from the interface before it
/// can be claimed: where the host binds one, and one is bound.
pub fn must_detach_kernel_driver(host_binds_drivers: bool, driver_active: bool) -> (r: bool)
    ensures
        r == (host_binds_drivers && driver_active),
{
    host_binds_drivers && driver_active
}

/// The notice raised when a write moved only part of the data.
pub open spec fn partial_write_notice(endpoint: u8, expected: usize, written: usize) -> Seq<char> {
    "USB partial write: wrote "@ + decimal(written as nat) + "/"@ + decimal(expected as nat)
        + " bytes to endpoint 0x"@ + hex2_upper(endpoint as nat)
}

/// The notice raised when a write failed.
pub open spec fn write_failed_notice(endpoint: u8, detail: Seq<char>) -> Seq<char> {
    "USB write failed to endpoint 0x"@ + hex2_upper(endpoint as nat) + ": "@ + detail
}

/// A failed write: the error for the caller and the event for the sensor.
#[derive(Debug)]
pub struct WriteFailure {
    pub error: TransportError,
    pub event: SensorEvent,
}

/// Judges the outcome of a bulk write of `requested` bytes.
///
/// The write has succeeded only if the transfer reported no error and moved
/// every byte.  A transfer that ends without error but short of the
/// requested length is a failure like any other: it is what a stale handle
/// looks like after the device has been power-cycled.  Every failure comes
/// with an event for the sensor.
pub fn check_write(endpoint: u8, requested: usize, outcome: Result<usize, String>) -> (r: Result<
    (),
    WriteFailure,
>)
    ensures
        r is Ok <==> outcome == Ok::<usize, String>(requested),
        match outcome {
            Ok(written) => written != requested ==> (r matches Err(failure) && {
                &&& failure.error == (TransportError::PartialWrite {
                    endpoint,
                    expected: requested,
                    written,
                })
                &&& failure.event matches SensorEvent::UsbError(notice)
                &&& notice@ == partial_write_notice(endpoint, requested, written)
            }),
            Err(detail) => (r matches Err(failure) && {
                &&& failure.error == (TransportError::WriteFailed { endpoint, detail })
                &&& failure.event matches SensorEvent::UsbError(notice)
                &&& notice@ == write_failed_notice(endpoint, detail@)
            }),
        },
{
    match outcome {
        Ok(written) => {
            if written == requested {
                Ok(())
            } else {
                let mut notice = String::from_str("USB partial write: wrote ");
                push_decimal(&mut notice, written);
                notice.append("/");
                push_decimal(&mut notice, requested);
                notice.append(" bytes to endpoint 0x");
                push_hex2_upper(&mut notice, endpoint);
                Err(
                    WriteFailure {
                        error: TransportError::PartialWrite { endpoint, expected: requested, written },
                        event: SensorEvent::UsbError(notice),
                    },
                )
            }
        },
        Err(detail) => {
            let mut notice = String::from_str("USB write failed to endpoint 0x");
            push_hex2_upper(&mut notice, endpoint);
            notice.append(": ");
            notice.append(detail.as_str());
            Err(
                WriteFailure {
                    error: TransportError::WriteFailed { endpoint, detail },
                    event: SensorEvent::UsbError(notice),
                },
            )
        },
    }
}

impl TransportError {
    /// The error in words.
    pub open spec fn message(&self) -> Seq<char> {
        match *self {
            TransportError::DeviceNotFound => "USB device not found"@,
            TransportError::NoEndpoints =>
                "no suitable endpoints or interface number found for USB device"@,
            TransportError::ClaimFailed { detail, .. } => detail@,
            TransportError::PartialWrite { endpoint, expected, written } =>
                "USB write incomplete: expected "@ + decimal(expected as nat) + " bytes, wrote "@
                + decimal(written as nat) + " bytes to endpoint 0x"@ + hex2_upper(endpoint as nat),
            TransportError::WriteFailed { endpoint, detail } => "write_bulk to endpoint 0x"@
                + hex2_upper(endpoint as nat) + " failed: "@ + detail@,
            TransportError::Usb(detail) => detail@,
        }
    }

    /// The error in words.
    pub fn to_string(&self) -> (r: String)
        ensures
            r@ == self.message(),
    {
        match self {
            TransportError::DeviceNotFound => String::from_str("USB device not found"),
            TransportError::NoEndpoints => String::from_str(
                "no suitable endpoints or interface number found for USB device",
            ),
            TransportError::ClaimFailed { detail, .. } => detail.clone(),
            TransportError::PartialWrite { endpoint, expected, written } => {
                let mut text = String::from_str("USB write incomplete: expected ");
                push_decimal(&mut text, *expected);
                text.append(" bytes, wrote ");
                push_decimal(&mut text, *written);
                text.append(" bytes to endpoint 0x");
                push_hex2_upper(&mut text, *endpoint);
                text
            },
            TransportError::WriteFailed { endpoint, detail } => {
                let mut text = String::from_str("write_bulk to endpoint 0x");
                push_hex2_upper(&mut text, *endpoint);
                text.append(" failed: ");
                text.append(detail.as_str());
                text
            },
            TransportError::Usb(detail) => detail.clone(),
        }
    }

    /// The error as the executor sees it: a failure of the device, with the
    /// error's words as its text.
    pub fn to_fault(&self) -> (r: PrinterFault)
        ensures
            r matches PrinterFault::Io(text) && text@ == self.message(),
    {
        PrinterFault::Io(self.to_string())
    }
}

/// The name under which an open transport presents itself.
pub open spec fn transport_label(vendor_id: u16, product_id: u16, endpoints: Endpoints) -> Seq<char> {
    "CustomUSB (VID: 0x"@ + hex4_upper(vendor_id as nat) + ", PID: 0x"@ + hex4_upper(
        product_id as nat,
    ) + ", out: 0x"@ + hex2_upper(endpoints.output as nat) + ", in: 0x"@ + hex2_upper(
        endpoints.input as nat,
    ) + ")"@
}

/// The name under which an open transport presents itself.
pub fn transport_name(vendor_id: u16, product_id: u16, endpoints: &Endpoints) -> (r: String)
    ensures
        r@ == transport_label(vendor_id, product_id, *endpoints),
{
    let mut name = String::from_str("CustomUSB (VID: 0x");
    push_hex4_upper(&mut name, vendor_id);
    name.append(", PID: 0x");
    push_hex4_upper(&mut name, product_id);
    name.append(", out: 0x");
    push_hex2_upper(&mut name, endpoints.output);
    name.append(", in: 0x");
    push_hex2_upper(&mut name, endpoints.input);
    name.append(")");
    name
}

/// Where the opening of the transport stands.
///
/// Opening alternates between work on the bus, which the caller does, and
/// decisions, which are taken here.  Each phase but the last two waits for
/// the outcome of one piece of work.
#[derive(Debug)]
pub enum OpenPhase {
    /// Waiting for the devices on the bus.
    Enumerating,
    /// Waiting for the interfaces of the chosen device.
    ReadingInterfaces { device: usize },
    /// Waiting for the chosen device to be opened.
    OpeningDevice { device: usize, endpoints: Endpoints },
    /// Waiting to learn whether a kernel driver holds the interface.
    QueryingKernelDriver { endpoints: Endpoints },
    /// Waiting for the kernel driver to be detached.
    DetachingKernelDriver { endpoints: Endpoints },
    /// Waiting for the interface to be claimed, after `retries` repeats.
    Claiming { endpoints: Endpoints, retries: u32 },
    /// Waiting for the pause before repeat number `retries` of the claim.
    Pausing { endpoints: Endpoints, retries: u32 },
    /// Waiting for the halt condition of the output endpoint to be cleared.
    ClearingHalt { endpoints: Endpoints },
    /// The transport is open on these endpoints.
    Ready { endpoints: Endpoints },
    /// The transport could not be opened.
    Failed { error: TransportError },
}

/// What the caller found on the bus, or how the work it was asked for went.
#[derive(Debug)]
pub enum OpenEvent {
    /// The devices on the bus, in enumeration order.
    Devices(Vec<DeviceId>),
    /// The interface settings of the active configuration, in descriptor
    /// order.
    Interfaces(Vec<InterfaceInfo>),
    /// Whether a kernel driver holds the interface.
    KernelDriver(bool),
    /// The work succeeded.
    Done,
    /// The work failed; the text is the error of the bus.
    Failed(String),
}

/// The work that a phase waits for.
#[derive(Debug, Clone, Copy, PartialEq, Eq, Structural)]
pub enum OpenAction {
    /// List the devices on the bus.
    ListDevices,
    /// Read the active configuration of the device at this position.
    ReadInterfaces(usize),
    /// Open the device at this position.
    OpenDevice(usize),
    /// Ask whether a kernel driver holds this interface.
    QueryKernelDriver(u8),
    /// Detach the kernel driver from this interface.
    DetachKernelDriver(u8),
    /// Claim this interface.
    ClaimInterface(u8),
    /// Wait this many milliseconds.
    Wait(u64),
    /// Clear the halt condition of this endpoint.
    ClearHalt(u8),
    /// Nothing is left to do.
    Finish,
}

impl OpenPhase {
    /// The work that this phase waits for.
    pub open spec fn pending(self) -> OpenAction {
        match self {
            OpenPhase::Enumerating => OpenAction::ListDevices,
            OpenPhase::ReadingInterfaces { device } => OpenAction::ReadInterfaces(device),
            OpenPhase::OpeningDevice { device, .. } => OpenAction::OpenDevice(device),
            OpenPhase::QueryingKernelDriver { endpoints } => OpenAction::QueryKernelDriver(
                endpoints.interface,
            ),
            OpenPhase::DetachingKernelDriver { endpoints } => OpenAction::DetachKernelDriver(
                endpoints.interface,
            ),
            OpenPhase::Claiming { endpoints, .. } => OpenAction::ClaimInterface(endpoints.interface),
            OpenPhase::Pausing { .. } => OpenAction::Wait(CLAIM_RETRY_DELAY_MS),
            OpenPhase::ClearingHalt { endpoints } => OpenAction::ClearHalt(endpoints.output),
            OpenPhase::Ready { .. } => OpenAction::Finish,
            OpenPhase::Failed { .. } => OpenAction::Finish,
        }
    }

    /// The phase that claims the interface for the first time.
    pub open spec fn first_claim(endpoints: Endpoints) -> OpenPhase {
        OpenPhase::Claiming { endpoints, retries: 0 }
    }

    /// The phase that an event leads to.
    ///
    /// Every failure on the bus ends the opening, with two exceptions.  A
    /// failed claim is repeated after a pause, up to [`MAX_CLAIM_ATTEMPTS`]
    /// times.  A halt condition that cannot be cleared is passed over: the
    /// transport is ready all the same.  An event that the phase does not
    /// wait for changes nothing.
    pub open spec fn after(
        self,
        config: UsbConfig,
        host_binds_drivers: bool,
        event: OpenEvent,
    ) -> OpenPhase {
        match (self, event) {
            (OpenPhase::Ready { .. }, _) => self,
            (OpenPhase::Failed { .. }, _) => self,
            (OpenPhase::Enumerating, OpenEvent::Devices(devices)) => match first_match(
                config,
                devices@,
            ) {
                Some(i) => OpenPhase::ReadingInterfaces { device: i as usize },
                None => OpenPhase::Failed { error: TransportError::DeviceNotFound },
            },
            (OpenPhase::ReadingInterfaces { device }, OpenEvent::Interfaces(interfaces)) => match resolved(
                config,
                interfaces@,
            ) {
                Some(endpoints) => OpenPhase::OpeningDevice { device, endpoints },
                None => OpenPhase::Failed { error: TransportError::NoEndpoints },
            },
            (OpenPhase::OpeningDevice { endpoints, .. }, OpenEvent::Done) => if host_binds_drivers {
                OpenPhase::QueryingKernelDriver { endpoints }
            } else {
                OpenPhase::first_claim(endpoints)
            },
            (
                OpenPhase::QueryingKernelDriver { endpoints },
                OpenEvent::KernelDriver(active),
            ) => if active {
                OpenPhase::DetachingKernelDriver { endpoints }
            } else {
                OpenPhase::first_claim(endpoints)
            },
            (OpenPhase::DetachingKernelDriver { endpoints }, OpenEvent::Done) => OpenPhase::first_claim(
                endpoints,
            ),
            (OpenPhase::Claiming { endpoints, .. }, OpenEvent::Done) => OpenPhase::ClearingHalt {
                endpoints,
            },
            (OpenPhase::Claiming { endpoints, retries }, OpenEvent::Failed(detail)) => if retries
                < MAX_CLAIM_ATTEMPTS {
                OpenPhase::Pausing { endpoints, retries: (retries + 1) as u32 }
            } else {
                OpenPhase::Failed {
                    error: TransportError::ClaimFailed {
                        interface: endpoints.interface,
                        retries,
                        detail,
                    },
                }
            },
            (OpenPhase::Pausing { endpoints, retries }, OpenEvent::Done) => OpenPhase::Claiming {
                endpoints,
                retries,
            },
            (OpenPhase::ClearingHalt { endpoints }, OpenEvent::Done) => OpenPhase::Ready { endpoints },
            (OpenPhase::ClearingHalt { endpoints }, OpenEvent::Failed(_)) => OpenPhase::Ready {
                endpoints,
            },
            (OpenPhase::Pausing { .. }, OpenEvent::Failed(_)) => self,
            (_, OpenEvent::Failed(detail)) => OpenPhase::Failed { error: TransportError::Usb(detail) },
            _ => self,
        }
    }

    /// The phase in which every opening starts.
    pub fn start() -> (r: OpenPhase)
        ensures
            r == OpenPhase::Enumerating,
    {
        OpenPhase::Enumerating
    }

    /// The work to do now.
    pub fn action(&self) -> (r: OpenAction)
        ensures
            r == self.pending(),
    {
        match self {
            OpenPhase::Enumerating => OpenAction::ListDevices,
            OpenPhase::ReadingInterfaces { device } => OpenAction::ReadInterfaces(*device),
            OpenPhase::OpeningDevice { device, .. } => OpenAction::OpenDevice(*device),
            OpenPhase::QueryingKernelDriver { endpoints } => OpenAction::QueryKernelDriver(
                endpoints.interface,
            ),
            OpenPhase::DetachingKernelDriver { endpoints } => OpenAction::DetachKernelDriver(
                endpoints.interface,
            ),
            OpenPhase::Claiming { endpoints, .. } => OpenAction::ClaimInterface(endpoints.interface),
            OpenPhase::Pausing { .. } => OpenAction::Wait(CLAIM_RETRY_DELAY_MS),
            OpenPhase::ClearingHalt { endpoints } => OpenAction::ClearHalt(endpoints.output),
            OpenPhase::Ready { .. } => OpenAction::Finish,
            OpenPhase::Failed { .. } => OpenAction::Finish,
        }
    }

    /// Takes the outcome of the work that was asked for and moves on.
    pub fn advance(self, config: &UsbConfig, host_binds_drivers: bool, event: OpenEvent) -> (r:
        OpenPhase)
        ensures
            r == self.after(*config, host_binds_drivers, event),
    {
        match (self, event) {
            (OpenPhase::Ready { endpoints }, _) => OpenPhase::Ready { endpoints },
            (OpenPhase::Failed { error }, _) => OpenPhase::Failed { error },
            (OpenPhase::Enumerating, OpenEvent::Devices(devices)) => match find_device(
                config,
                &devices,
            ) {
                Ok(i) => OpenPhase::ReadingInterfaces { device: i },
                Err(error) => OpenPhase::Failed { error: TransportError::DeviceNotFound },
            },
            (OpenPhase::ReadingInterfaces { device }, OpenEvent::Interfaces(interfaces)) => match resolve_endpoints(
                config,
                &interfaces,
            ) {
                Ok(endpoints) => OpenPhase::OpeningDevice { device, endpoints },
                Err(error) => OpenPhase::Failed { error: TransportError::NoEndpoints },
            },
            (OpenPhase::OpeningDevice { endpoints, .. }, OpenEvent::Done) => if host_binds_drivers {
                OpenPhase::QueryingKernelDriver { endpoints }
            } else {
                OpenPhase::Claiming { endpoints, retries: 0 }
            },
            (
                OpenPhase::QueryingKernelDriver { endpoints },
                OpenEvent::KernelDriver(active),
            ) => if must_detach_kernel_driver(true, active) {
                OpenPhase::DetachingKernelDriver { endpoints }
            } else {
                OpenPhase::Claiming { endpoints, retries: 0 }
            },
            (OpenPhase::DetachingKernelDriver { endpoints }, OpenEvent::Done) => OpenPhase::Claiming {
                endpoints,
                retries: 0,
            },
            (OpenPhase::Claiming { endpoints, .. }, OpenEvent::Done) => OpenPhase::ClearingHalt {
                endpoints,
            },
            (OpenPhase::Claiming { endpoints, retries }, OpenEvent::Failed(detail)) => {
                match claim_decision(false, retries) {
                    ClaimDecision::RetryAfter(_) => OpenPhase::Pausing {
                        endpoints,
                        retries: retries + 1,
                    },
                    _ => OpenPhase::Failed {
                        error: TransportError::ClaimFailed {
                            interface: endpoints.interface,
                            retries,
                            detail,
                        },
                    },
                }
            },
            (OpenPhase::Pausing { endpoints, retries }, OpenEvent::Done) => OpenPhase::Claiming {
                endpoints,
                retries,
            },
            (OpenPhase::ClearingHalt { endpoints }, OpenEvent::Done) => OpenPhase::Ready { endpoints },
            (OpenPhase::ClearingHalt { endpoints }, OpenEvent::Failed(_)) => OpenPhase::Ready {
                endpoints,
            },
            (OpenPhase::Pausing { endpoints, retries }, OpenEvent::Failed(_)) => OpenPhase::Pausing {
                endpoints,
                retries,
            },
            (_, OpenEvent::Failed(detail)) => OpenPhase::Failed { error: TransportError::Usb(detail) },
            (phase, _) => phase,
        }
    }
}

/// Whether a phase can be reached with this configuration: a claim is never
/// repeated more often than allowed.
pub open spec fn claim_bounded(phase: OpenPhase) -> bool {
    match phase {
        OpenPhase::Claiming { retries, .. } => retries <= MAX_CLAIM_ATTEMPTS,
        OpenPhase::Pausing { retries, .. } => 1 <= retries <= MAX_CLAIM_ATTEMPTS,
        OpenPhase::Failed { error: TransportError::ClaimFailed { retries, .. } } => retries
            == MAX_CLAIM_ATTEMPTS,
        _ => true,
    }
}

/// The interface is claimed once and then again at most
/// [`MAX_CLAIM_ATTEMPTS`] times: the bound holds at the start and every
/// event keeps it.  The claim is given up exactly when a claim fails with
/// all repeats used up.
pub proof fn lemma_claim_bounded(
    phase: OpenPhase,
    config: UsbConfig,
    host_binds_drivers: bool,
    event: OpenEvent,
)
    requires
        claim_bounded(phase),
    ensures
        claim_bounded(OpenPhase::Enumerating),
        claim_bounded(phase.after(config, host_binds_drivers, event)),
        !(phase is Failed) && phase.after(config, host_binds_drivers, event) is Failed && phase.after(
            config,
            host_binds_drivers,
            event,
        )->error is ClaimFailed ==> phase is Claiming && phase->Claiming_retries
            == MAX_CLAIM_ATTEMPTS && event is Failed,
{
}

/// The transport becomes ready only out of the last phase, whether or not
/// the halt condition could be cleared, and keeps the endpoints that were
/// resolved when the interfaces were read.
pub proof fn lemma_ready(phase: OpenPhase, config: UsbConfig, host_binds_drivers: bool, event: OpenEvent)
    requires
        !(phase is Ready),
    ensures
        phase.after(config, host_binds_drivers, event) is Ready ==> phase == (OpenPhase::ClearingHalt {
            endpoints: phase.after(config, host_binds_drivers, event)->Ready_endpoints,
        }) && (event is Done || event is Failed),
        phase is ClearingHalt && (event is Done || event is Failed) ==> phase.after(
            config,
            host_binds_drivers,
            event,
        ) is Ready,
        phase is ReadingInterfaces && phase.after(config, host_binds_drivers, event) is OpeningDevice
            ==> event is Interfaces && resolved(config, event->Interfaces_0@) == Some(
            phase.after(config, host_binds_drivers, event)->OpeningDevice_endpoints,
        ),
{
}

} // verus!

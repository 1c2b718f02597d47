//! One function for each request: what it answers and how it changes the
//! capture state. Opening and closing handles is the driver's part: a request
//! that switches sessions is decided here, carried out by the driver, and
//! completed here with the outcome.

use crate::capture::device::{
    is_first_named, none_named, text_of, views_of, Address, AddressView, Device, DeviceManager,
    DeviceView,
};
use crate::capture::packet::PacketCapture;
use crate::error::CaptureError;
use crate::state::AppState;
use vstd::prelude::*;

verus! {

/// The answer to a query of the capture status.
#[derive(Clone, Debug, PartialEq, Eq)]
pub struct CaptureStatus {
    pub is_active: bool,
    pub current_device: Option<String>,
}

/// The request to capture from the device of this name.
#[derive(Clone, Debug, PartialEq, Eq)]
pub struct SelectDeviceRequest {
    pub name: String,
}

/// One address of an interface, as it is listed to a client.
#[derive(Clone, Debug, PartialEq, Eq)]
pub struct InterfaceAddress {
    pub address: String,
    pub netmask: Option<String>,
    pub broadcast: Option<String>,
}

#[verifier::ext_equal]
pub struct InterfaceAddressView {
    pub address: Seq<char>,
    pub netmask: Option<Seq<char>>,
    pub broadcast: Option<Seq<char>>,
}

impl View for InterfaceAddress {
    type V = InterfaceAddressView;

    open spec fn view(&self) -> InterfaceAddressView {
        InterfaceAddressView {
            address: self.address@,
            netmask: text_of(self.netmask),
            broadcast: text_of(self.broadcast),
        }
    }
}

/// One interface, as it is listed to a client.
#[derive(Clone, Debug, PartialEq, Eq)]
pub struct NetworkInterface {
    pub name: String,
    pub description: Option<String>,
    pub addresses: Vec<InterfaceAddress>,
    pub is_up: bool,
    pub is_running: bool,
    pub is_wireless: bool,
}

#[verifier::ext_equal]
pub struct NetworkInterfaceView {
    pub name: Seq<char>,
    pub description: Option<Seq<char>>,
    pub addresses: Seq<InterfaceAddressView>,
    pub is_up: bool,
    pub is_running: bool,
    pub is_wireless: bool,
}

impl View for NetworkInterface {
    type V = NetworkInterfaceView;

    open spec fn view(&self) -> NetworkInterfaceView {
        NetworkInterfaceView {
            name: self.name@,
            description: text_of(self.description),
            addresses: views_of(self.addresses@),
            is_up: self.is_up,
            is_running: self.is_running,
            is_wireless: self.is_wireless,
        }
    }
}

/// How an address is listed.
pub open spec fn listed_address(address: AddressView) -> InterfaceAddressView {
    InterfaceAddressView {
        address: address.addr,
        netmask: address.netmask,
        broadcast: address.broadcast_addr,
    }
}

/// How an interface is listed: its addresses in their order.
pub open spec fn listed_interface(device: DeviceView) -> NetworkInterfaceView {
    NetworkInterfaceView {
        name: device.name,
        description: device.desc,
        addresses: device.addresses.map_values(|a: AddressView| listed_address(a)),
        is_up: device.flags.up,
        is_running: device.flags.running,
        is_wireless: device.flags.wireless,
    }
}

/// How a report of interfaces is listed: each interface in its place; a report
/// that could not be had is listed as empty.
pub open spec fn listed_interfaces(listed: Result<Vec<Device>, String>) -> Seq<
    NetworkInterfaceView,
> {
    match listed {
        Ok(devices) => views_of(devices@).map_values(|d: DeviceView| listed_interface(d)),
        Err(_) => Seq::empty(),
    }
}

fn copy_text(text: &Option<String>) -> (copy: Option<String>)
    ensures
        text_of(copy) == text_of(*text),
{
    match text {
        Some(t) => Some(t.clone()),
        None => None,
    }
}

impl InterfaceAddress {
    pub fn from_address(address: &Address) -> (record: InterfaceAddress)
        ensures
            record@ == listed_address(address@),
    {
        InterfaceAddress {
            address: address.addr.clone(),
            netmask: copy_text(&address.netmask),
            broadcast: copy_text(&address.broadcast_addr),
        }
    }
}

impl NetworkInterface {
    pub fn from_device(device: &Device) -> (record: NetworkInterface)
        ensures
            record@ == listed_interface(device@),
    {
        let mut addresses: Vec<InterfaceAddress> = Vec::new();
        let mut i: usize = 0;
        while i < device.addresses.len()
            invariant
                i <= device.addresses.len(),
                addresses.len() == i,
                forall|j: int| 0 <= j < i ==> addresses@[j]@ == listed_address(device.addresses@[j]@),
            decreases device.addresses.len() - i,
        {
            addresses.push(InterfaceAddress::from_address(&device.addresses[i]));
            i = i + 1;
        }
        let record = NetworkInterface {
            name: device.name.clone(),
            description: copy_text(&device.desc),
            addresses,
            is_up: device.flags.is_up(),
            is_running: device.flags.is_running(),
            is_wireless: device.flags.is_wireless(),
        };
        assert(record@.addresses =~= listed_interface(device@).addresses);
        record
    }
}

/// Whether capture is active.
pub fn get_status(state: &AppState) -> (active: bool)
    ensures
        active == state@.active,
{
    state.capture_active
}

/// The interfaces of a report, as they are listed to a client.
pub fn get_interfaces(listed: Result<Vec<Device>, String>) -> (interfaces: Vec<NetworkInterface>)
    ensures
        views_of(interfaces@) == listed_interfaces(listed),
{
    let mut interfaces: Vec<NetworkInterface> = Vec::new();
    match &listed {
        Ok(devices) => {
            let mut i: usize = 0;
            while i < devices.len()
                invariant
                    i <= devices.len(),
                    interfaces.len() == i,
                    forall|j: int| 0 <= j < i ==> interfaces@[j]@ == listed_interface(devices@[j]@),
                decreases devices.len() - i,
            {
                interfaces.push(NetworkInterface::from_device(&devices[i]));
                i = i + 1;
            }
            assert(views_of(interfaces@) =~= listed_interfaces(listed));
        },
        Err(_) => {
            assert(views_of(interfaces@) =~= listed_interfaces(listed));
        },
    }
    interfaces
}

/// What the driver has to do to switch sessions: release the handle of the
/// previous session where there was one, then open a handle on `device`, and
/// report the outcome with `capture_opened`.
#[derive(Clone, Debug, PartialEq, Eq)]
pub struct OpenPlan {
    pub device: Device,
    pub close_previous: bool,
}

/// The device that a start captures from: the one asked for, else the one
/// that the operating system prefers.
pub open spec fn start_choice(
    requested: Option<Device>,
    reported: Result<Option<Device>, String>,
) -> Option<Device> {
    match requested {
        Some(device) => Some(device),
        None => match reported {
            Ok(Some(preferred)) => Some(preferred),
            _ => None,
        },
    }
}

/// The first interface of `devices` called `name`.
pub open spec fn selected(devices: Seq<Device>, name: Seq<char>) -> Option<Device> {
    if exists|i: int| is_first_named(devices, name, i) {
        Some(devices[choose|i: int| is_first_named(devices, name, i)])
    } else {
        None
    }
}

/// `selected` is the interface at the first place that carries the name, and
/// is `None` exactly where no interface carries it.
pub proof fn lemma_selected(devices: Seq<Device>, name: Seq<char>)
    ensures
        selected(devices, name) is None <==> none_named(devices, name),
        forall|i: int| is_first_named(devices, name, i) ==> selected(devices, name) == Some(devices[i]),
        selected(devices, name) matches Some(device) ==> device.name@ == name,
{
    assert forall|i: int| is_first_named(devices, name, i) implies selected(devices, name) == Some(
        devices[i],
    ) by {
        let k = choose|k: int| is_first_named(devices, name, k);
        assert(is_first_named(devices, name, k));
        assert(k == i) by {
            if k < i {
                assert(devices[k].name@ != name);
            } else if i < k {
                assert(devices[i].name@ != name);
            }
        }
    }
    if !none_named(devices, name) {
        lemma_first_named_exists(devices, name, devices.len() as int);
    }
}

/// Among the first `n` interfaces, either none carries the name or one is the
/// first to carry it.
proof fn lemma_first_named_exists(devices: Seq<Device>, name: Seq<char>, n: int)
    requires
        0 <= n <= devices.len(),
    ensures
        (forall|j: int| 0 <= j < n ==> devices[j].name@ != name) || (exists|i: int|
            is_first_named(devices, name, i)),
    decreases n,
{
    if n > 0 {
        lemma_first_named_exists(devices, name, n - 1);
        if forall|j: int| 0 <= j < n - 1 ==> devices[j].name@ != name {
            if devices[n - 1].name@ == name {
                assert(is_first_named(devices, name, n - 1));
            }
        }
    }
}

/// Stops the current session and plans the opening of one on `device`.
fn plan_switch(state: &mut AppState, device: Device) -> (plan: OpenPlan)
    ensures
        plan == (OpenPlan { device, close_previous: old(state)@.has_open_session() }),
        final(state)@ == old(state)@.stopped(),
        final(state)@.wf(),
{
    let close_previous = stop_capture(state);
    OpenPlan { device, close_previous }
}

/// Starts capture on `requested`, or on the device that the operating system
/// prefers where none is asked for; `reported` is what it said of its
/// preference. Where there is a device, the current session is stopped first
/// and the plan tells the driver what to open. Where there is none, the
/// answer is `NoDefaultDevice` and nothing changes.
pub fn start_capture(
    state: &mut AppState,
    requested: Option<Device>,
    reported: Result<Option<Device>, String>,
) -> (plan: Result<OpenPlan, CaptureError>)
    ensures
        match start_choice(requested, reported) {
            Some(device) => {
                &&& plan == Ok::<OpenPlan, CaptureError>(
                    OpenPlan { device, close_previous: old(state)@.has_open_session() },
                )
                &&& final(state)@ == old(state)@.stopped()
            },
            None => {
                &&& plan == Err::<OpenPlan, CaptureError>(CaptureError::NoDefaultDevice)
                &&& final(state)@ == old(state)@
            },
        },
        old(state)@.wf() ==> final(state)@.wf(),
{
    let device = match requested {
        Some(device) => Ok(device),
        None => DeviceManager::get_default_device(reported),
    };
    match device {
        Ok(device) => Ok(plan_switch(state, device)),
        Err(error) => Err(error),
    }
}

/// Completes a switch of sessions with the outcome of the driver's attempt to
/// open a handle on `device`. On success a new session captures from the
/// device and capture is active. On failure the answer is `CaptureOpen` and no
/// capture is active: a session that was stopped for the switch stays stopped.
pub fn capture_opened(state: &mut AppState, device: &Device, handle_opened: bool) -> (outcome:
    Result<(), CaptureError>)
    ensures
        final(state)@ == old(state)@.opened(device.name@, handle_opened),
        outcome == if handle_opened {
            Ok::<(), CaptureError>(())
        } else {
            Err::<(), CaptureError>(CaptureError::CaptureOpen)
        },
        final(state)@.wf(),
{
    let mut session = PacketCapture::new();
    match session.start_capture(device, handle_opened) {
        Ok(()) => {
            state.capture = Some(session);
            state.capture_active = true;
            Ok(())
        },
        Err(error) => {
            stop_capture(state);
            Err(error)
        },
    }
}

/// Stops capture: it is inactive afterwards and the current session is
/// closed. Returns whether the driver has a handle to release. Where nothing
/// was active this changes nothing and returns `false`.
pub fn stop_capture(state: &mut AppState) -> (release: bool)
    ensures
        final(state)@ == old(state)@.stopped(),
        release == old(state)@.has_open_session(),
        final(state)@.wf(),
{
    state.capture_active = false;
    match &mut state.capture {
        Some(session) => session.stop_capture(),
        None => false,
    }
}

/// Whether capture is active, and from which device.
pub fn get_capture_status(state: &AppState) -> (status: CaptureStatus)
    ensures
        status.is_active == state@.active,
        text_of(status.current_device) == state@.current_device(),
{
    let current_device = match &state.capture {
        Some(session) => if session.is_open() {
            session.device_name()
        } else {
            None
        },
        None => None,
    };
    CaptureStatus { is_active: state.capture_active, current_device }
}

/// Switches capture to the device called as `request` says; `listed` is what
/// the operating system reported of its interfaces. Where the report could
/// not be had the answer is `DeviceEnumeration`, where no interface carries
/// the name it is `DeviceNotFound`, and in both cases nothing changes.
/// Otherwise the current session is stopped and the plan tells the driver to
/// open the first interface of that name.
pub fn select_device(
    state: &mut AppState,
    listed: Result<Vec<Device>, String>,
    request: &SelectDeviceRequest,
) -> (plan: Result<OpenPlan, CaptureError>)
    ensures
        match listed {
            Ok(devices) => match selected(devices@, request.name@) {
                Some(device) => {
                    &&& plan == Ok::<OpenPlan, CaptureError>(
                        OpenPlan { device, close_previous: old(state)@.has_open_session() },
                    )
                    &&& final(state)@ == old(state)@.stopped()
                },
                None => {
                    &&& plan == Err::<OpenPlan, CaptureError>(CaptureError::DeviceNotFound)
                    &&& final(state)@ == old(state)@
                },
            },
            Err(_) => {
                &&& plan == Err::<OpenPlan, CaptureError>(CaptureError::DeviceEnumeration)
                &&& final(state)@ == old(state)@
            },
        },
        old(state)@.wf() ==> final(state)@.wf(),
{
    match DeviceManager::get_available_devices(listed) {
        Ok(devices) => {
            let mut devices = devices;
            proof {
                lemma_selected(devices@, request.name@);
            }
            match DeviceManager::find_by_name(&devices, &request.name) {
                Some(i) => {
                    let device = devices.remove(i);
                    Ok(plan_switch(state, device))
                },
                None => Err(CaptureError::DeviceNotFound),
            }
        },
        Err(error) => Err(error),
    }
}

} // verus!

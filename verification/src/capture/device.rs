//! The interface catalog: what the operating system reports of its network
//! interfaces, and the lookups made on such a report.

use crate::error::CaptureError;
use vstd::prelude::*;

verus! {

/// The text of an optional string.
pub open spec fn text_of(s: Option<String>) -> Option<Seq<char>> {
    match s {
        Some(t) => Some(t@),
        None => None,
    }
}

/// The values of the items of `s`, in order.
pub open spec fn views_of<T: View>(s: Seq<T>) -> Seq<T::V> {
    s.map_values(|t: T| t@)
}

/// One address assigned to an interface, each part in its textual form.
#[derive(Clone, Debug, PartialEq, Eq)]
pub struct Address {
    pub addr: String,
    pub netmask: Option<String>,
    pub broadcast_addr: Option<String>,
}

#[verifier::ext_equal]
pub struct AddressView {
    pub addr: Seq<char>,
    pub netmask: Option<Seq<char>>,
    pub broadcast_addr: Option<Seq<char>>,
}

impl View for Address {
    type V = AddressView;

    open spec fn view(&self) -> AddressView {
        AddressView {
            addr: self.addr@,
            netmask: text_of(self.netmask),
            broadcast_addr: text_of(self.broadcast_addr),
        }
    }
}

/// What an interface is capable of at the time of the report.
#[derive(Clone, Copy, Debug, PartialEq, Eq, Structural)]
pub struct DeviceFlags {
    pub up: bool,
    pub running: bool,
    pub wireless: bool,
}

impl DeviceFlags {
    pub fn is_up(&self) -> (up: bool)
        ensures
            up == self.up,
    {
        self.up
    }

    pub fn is_running(&self) -> (running: bool)
        ensures
            running == self.running,
    {
        self.running
    }

    pub fn is_wireless(&self) -> (wireless: bool)
        ensures
            wireless == self.wireless,
    {
        self.wireless
    }
}

/// One network interface as the operating system reported it. The name
/// identifies the interface within one report.
#[derive(Clone, Debug, PartialEq, Eq)]
pub struct Device {
    pub name: String,
    pub desc: Option<String>,
    pub addresses: Vec<Address>,
    pub flags: DeviceFlags,
}

#[verifier::ext_equal]
pub struct DeviceView {
    pub name: Seq<char>,
    pub desc: Option<Seq<char>>,
    pub addresses: Seq<AddressView>,
    pub flags: DeviceFlags,
}

impl View for Device {
    type V = DeviceView;

    open spec fn view(&self) -> DeviceView {
        DeviceView {
            name: self.name@,
            desc: text_of(self.desc),
            addresses: views_of(self.addresses@),
            flags: self.flags,
        }
    }
}

/// `i` is the place of the first interface of `devices` called `name`.
pub open spec fn is_first_named(devices: Seq<Device>, name: Seq<char>, i: int) -> bool {
    &&& 0 <= i < devices.len()
    &&& devices[i].name@ == name
    &&& forall|j: int| 0 <= j < i ==> devices[j].name@ != name
}

/// No interface of `devices` is called `name`.
pub open spec fn none_named(devices: Seq<Device>, name: Seq<char>) -> bool {
    forall|j: int| 0 <= j < devices.len() ==> devices[j].name@ != name
}

/// Remembers the interface that was selected last.
#[derive(Debug)]
pub struct DeviceManager {
    current_device: Option<Device>,
}

impl DeviceManager {
    /// The interface selected last, if any was.
    pub closed spec fn current(&self) -> Option<Device> {
        self.current_device
    }

    pub fn new() -> (manager: Self)
        ensures
            manager.current() is None,
    {
        DeviceManager { current_device: None }
    }

    /// The interfaces of a report. A report that holds no interface is an empty
    /// list and no error; a report that could not be had is
    /// `DeviceEnumeration`, whatever the operating system said of it.
    pub fn get_available_devices(listed: Result<Vec<Device>, String>) -> (devices: Result<
        Vec<Device>,
        CaptureError,
    >)
        ensures
            match listed {
                Ok(found) => devices == Ok::<Vec<Device>, CaptureError>(found),
                Err(_) => devices == Err::<Vec<Device>, CaptureError>(
                    CaptureError::DeviceEnumeration,
                ),
            },
    {
        match listed {
            Ok(found) => Ok(found),
            Err(_) => Err(CaptureError::DeviceEnumeration),
        }
    }

    /// The interface that the operating system prefers. Where it names none,
    /// or could not be asked, the result is `NoDefaultDevice`.
    pub fn get_default_device(reported: Result<Option<Device>, String>) -> (device: Result<
        Device,
        CaptureError,
    >)
        ensures
            match reported {
                Ok(Some(preferred)) => device == Ok::<Device, CaptureError>(preferred),
                _ => device == Err::<Device, CaptureError>(CaptureError::NoDefaultDevice),
            },
    {
        match reported {
            Ok(Some(preferred)) => Ok(preferred),
            _ => Err(CaptureError::NoDefaultDevice),
        }
    }

    /// The place in `devices` of the first interface whose name is exactly
    /// `name`, or `None` where there is none.
    pub fn find_by_name(devices: &Vec<Device>, name: &String) -> (found: Option<usize>)
        ensures
            match found {
                Some(i) => is_first_named(devices@, name@, i as int),
                None => none_named(devices@, name@),
            },
    {
        let mut i: usize = 0;
        while i < devices.len()
            invariant
                i <= devices.len(),
                forall|j: int| 0 <= j < i ==> devices@[j].name@ != name@,
            decreases devices.len() - i,
        {
            if devices[i].name == *name {
                return Some(i);
            }
            i = i + 1;
        }
        None
    }

    pub fn select_device(&mut self, device: Device)
        ensures
            final(self).current() == Some(device),
    {
        self.current_device = Some(device);
    }

    pub fn get_current_device(&self) -> (device: Option<&Device>)
        ensures
            match device {
                Some(d) => self.current() == Some(*d),
                None => self.current() is None,
            },
    {
        self.current_device.as_ref()
    }
}

} // verus!

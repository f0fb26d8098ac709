use vstd::prelude::*;

use crate::text::text_equal;

verus! {

/// A network device as the service reports it.
pub struct DeviceInfo {
    pub iface: String,
    pub is_wifi: bool,
    pub managed: bool,
}

/// Why no device could be used for the portal.
#[derive(Debug, Clone, Copy, PartialEq, Eq, Structural)]
pub enum DeviceError {
    DeviceNotFound,
    NotWiFi,
    InterfaceUnmanaged,
}

/// A WiFi device that the service manages.
pub open spec fn usable_device(d: DeviceInfo) -> bool {
    d.is_wifi && d.managed
}

/// The device named `interface`: the first one with that interface name. It
/// fails where there is none, where it is not WiFi, or where the service
/// does not manage it.
pub fn get_exact_device(devices: &Vec<DeviceInfo>, interface: &str) -> (r: Result<usize, DeviceError>)
    ensures
        r == get_exact_device_spec(devices@, interface@),
{
    let mut i: usize = 0;
    while i < devices.len()
        invariant
            i <= devices@.len(),
            first_named(devices@, interface@, 0) == first_named(devices@, interface@, i as int),
        decreases devices@.len() - i,
    {
        let d = &devices[i];
        if text_equal(d.iface.as_str(), interface) {
            if !d.is_wifi {
                return Err(DeviceError::NotWiFi);
            }
            if !d.managed {
                return Err(DeviceError::InterfaceUnmanaged);
            }
            return Ok(i);
        }
        i = i + 1;
    }
    Err(DeviceError::DeviceNotFound)
}

/// The first managed WiFi device, if there is one.
pub fn find_any_wifi_device(devices: &Vec<DeviceInfo>) -> (r: Result<usize, DeviceError>)
    ensures
        r == find_any_wifi_device_spec(devices@),
{
    let mut i: usize = 0;
    while i < devices.len()
        invariant
            i <= devices@.len(),
            first_usable(devices@, 0) == first_usable(devices@, i as int),
        decreases devices@.len() - i,
    {
        if devices[i].is_wifi && devices[i].managed {
            return Ok(i);
        }
        i = i + 1;
    }
    Err(DeviceError::DeviceNotFound)
}

/// The device for the portal: the one named `interface` where a name is
/// given, else the first managed WiFi device.
pub fn find_device(devices: &Vec<DeviceInfo>, interface: &Option<String>) -> (r: Result<usize, DeviceError>)
    ensures
        interface matches Some(name) ==> r == get_exact_device_spec(devices@, name@),
        interface is None ==> r == find_any_wifi_device_spec(devices@),
{
    match interface {
        Some(name) => get_exact_device(devices, name.as_str()),
        None => find_any_wifi_device(devices),
    }
}

/// The index of the first device named `name` from `from` on.
pub open spec fn first_named(ds: Seq<DeviceInfo>, name: Seq<char>, from: int) -> Option<int>
    decreases ds.len() - from,
{
    if from < 0 || from >= ds.len() {
        None
    } else if ds[from].iface@ == name {
        Some(from)
    } else {
        first_named(ds, name, from + 1)
    }
}

pub open spec fn get_exact_device_spec(ds: Seq<DeviceInfo>, name: Seq<char>) -> Result<usize, DeviceError> {
    match first_named(ds, name, 0) {
        None => Err(DeviceError::DeviceNotFound),
        Some(i) => if !ds[i].is_wifi {
            Err(DeviceError::NotWiFi)
        } else if !ds[i].managed {
            Err(DeviceError::InterfaceUnmanaged)
        } else {
            Ok(i as usize)
        },
    }
}

/// The index of the first usable device from `from` on.
pub open spec fn first_usable(ds: Seq<DeviceInfo>, from: int) -> Option<int>
    decreases ds.len() - from,
{
    if from < 0 || from >= ds.len() {
        None
    } else if usable_device(ds[from]) {
        Some(from)
    } else {
        first_usable(ds, from + 1)
    }
}

pub open spec fn find_any_wifi_device_spec(ds: Seq<DeviceInfo>) -> Result<usize, DeviceError> {
    match first_usable(ds, 0) {
        None => Err(DeviceError::DeviceNotFound),
        Some(i) => Ok(i as usize),
    }
}

} // verus!

//! Choosing the wireless device to work on.
use vstd::prelude::*;

verus! {

/// What the choice reads of a network device.
#[derive(Debug, Clone, Copy, PartialEq, Eq, Structural)]
pub struct DeviceInfo {
    pub is_wifi: bool,
    /// The network service manages the device.
    pub managed: bool,
}

/// Why no device can be used.
#[derive(Debug, Clone, Copy, PartialEq, Eq, Structural)]
pub enum DeviceError {
    /// The named interface is not a WiFi device.
    NotAWiFiDevice,
    /// The named interface is not managed by the network service.
    UnmanagedDevice,
    /// No managed WiFi device exists.
    NoWiFiDevice,
}

/// A device named by the user must be a managed WiFi device.
pub fn check_named_device(d: DeviceInfo) -> (r: Result<(), DeviceError>)
    ensures
        !d.is_wifi ==> r == Err::<(), DeviceError>(DeviceError::NotAWiFiDevice),
        d.is_wifi && !d.managed ==> r == Err::<(), DeviceError>(DeviceError::UnmanagedDevice),
        d.is_wifi && d.managed ==> r is Ok,
{
    if !d.is_wifi {
        Err(DeviceError::NotAWiFiDevice)
    } else if !d.managed {
        Err(DeviceError::UnmanagedDevice)
    } else {
        Ok(())
    }
}

/// Without a name, the first managed WiFi device is used.
pub fn first_managed_wifi(devices: &Vec<DeviceInfo>) -> (r: Result<usize, DeviceError>)
    ensures
        r is Ok ==> {
            let i = r->Ok_0 as int;
            &&& 0 <= i < devices@.len()
            &&& devices@[i].is_wifi && devices@[i].managed
            &&& forall|j: int| 0 <= j < i ==> !(#[trigger] devices@[j].is_wifi && devices@[j].managed)
        },
        r is Err ==> r == Err::<usize, DeviceError>(DeviceError::NoWiFiDevice) && forall|j: int|
            0 <= j < devices@.len() ==> !(#[trigger] devices@[j].is_wifi && devices@[j].managed),
{
    let mut i: usize = 0;
    while i < devices.len()
        invariant
            i <= devices@.len(),
            forall|j: int| 0 <= j < i ==> !(#[trigger] devices@[j].is_wifi && devices@[j].managed),
        decreases devices@.len() - i,
    {
        if devices[i].is_wifi && devices[i].managed {
            return Ok(i);
        }
        i = i + 1;
    }
    Err(DeviceError::NoWiFiDevice)
}

} // verus!

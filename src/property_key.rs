use crate::uuid::Uuid;
use vstd::prelude::*;

verus! {

/// Addresses one property of a device, a device class or a device interface:
/// the property set it belongs to and its identifier within that set.
#[derive(Eq, Hash, Clone, Copy, Debug)]
pub struct PnpDevicePropertyKey {
    pub fmtid: Uuid,
    pub pid: u32,
}

impl PartialEq for PnpDevicePropertyKey {
    fn eq(&self, other: &PnpDevicePropertyKey) -> (r: bool) {
        self.fmtid == other.fmtid && self.pid == other.pid
    }
}

impl vstd::std_specs::cmp::PartialEqSpecImpl for PnpDevicePropertyKey {
    open spec fn obeys_eq_spec() -> bool {
        true
    }

    open spec fn eq_spec(&self, other: &PnpDevicePropertyKey) -> bool {
        *self == *other
    }
}

/// The native property key layout of windows-sys: a GUID and an id, both
/// public fields.
#[verifier::external_type_specification]
pub struct ExDevPropKey(windows_sys::Win32::Devices::Properties::DEVPROPKEY);

/// The shell's property key layout of windows-sys, the same two public
/// fields.
#[verifier::external_type_specification]
pub struct ExPropertyKey(windows_sys::Win32::UI::Shell::PropertiesSystem::PROPERTYKEY);

impl PnpDevicePropertyKey {
    /// The key in the layout that the native property calls take.
    pub fn to_devpropkey(&self) -> (r: windows_sys::Win32::Devices::Properties::DEVPROPKEY)
        ensures
            r.fmtid.data1 == self.fmtid.data1,
            r.fmtid.data2 == self.fmtid.data2,
            r.fmtid.data3 == self.fmtid.data3,
            r.fmtid.data4 == self.fmtid.data4,
            r.pid == self.pid,
    {
        windows_sys::Win32::Devices::Properties::DEVPROPKEY {
            fmtid: windows_sys::core::GUID {
                data1: self.fmtid.data1,
                data2: self.fmtid.data2,
                data3: self.fmtid.data3,
                data4: self.fmtid.data4,
            },
            pid: self.pid,
        }
    }
}

impl From<windows_sys::Win32::Devices::Properties::DEVPROPKEY> for PnpDevicePropertyKey {
    fn from(item: windows_sys::Win32::Devices::Properties::DEVPROPKEY) -> (r: PnpDevicePropertyKey) {
        PnpDevicePropertyKey {
            fmtid: Uuid {
                data1: item.fmtid.data1,
                data2: item.fmtid.data2,
                data3: item.fmtid.data3,
                data4: item.fmtid.data4,
            },
            pid: item.pid,
        }
    }
}

impl vstd::std_specs::convert::FromSpecImpl<windows_sys::Win32::Devices::Properties::DEVPROPKEY> for PnpDevicePropertyKey {
    open spec fn obeys_from_spec() -> bool {
        true
    }

    open spec fn from_spec(item: windows_sys::Win32::Devices::Properties::DEVPROPKEY) -> PnpDevicePropertyKey {
        PnpDevicePropertyKey {
            fmtid: Uuid {
                data1: item.fmtid.data1,
                data2: item.fmtid.data2,
                data3: item.fmtid.data3,
                data4: item.fmtid.data4,
            },
            pid: item.pid,
        }
    }
}

impl From<windows_sys::Win32::UI::Shell::PropertiesSystem::PROPERTYKEY> for PnpDevicePropertyKey {
    fn from(item: windows_sys::Win32::UI::Shell::PropertiesSystem::PROPERTYKEY) -> (r: PnpDevicePropertyKey) {
        PnpDevicePropertyKey {
            fmtid: Uuid {
                data1: item.fmtid.data1,
                data2: item.fmtid.data2,
                data3: item.fmtid.data3,
                data4: item.fmtid.data4,
            },
            pid: item.pid,
        }
    }
}

impl vstd::std_specs::convert::FromSpecImpl<windows_sys::Win32::UI::Shell::PropertiesSystem::PROPERTYKEY> for PnpDevicePropertyKey {
    open spec fn obeys_from_spec() -> bool {
        true
    }

    open spec fn from_spec(item: windows_sys::Win32::UI::Shell::PropertiesSystem::PROPERTYKEY) -> PnpDevicePropertyKey {
        PnpDevicePropertyKey {
            fmtid: Uuid {
                data1: item.fmtid.data1,
                data2: item.fmtid.data2,
                data3: item.fmtid.data3,
                data4: item.fmtid.data4,
            },
            pid: item.pid,
        }
    }
}

} // verus!

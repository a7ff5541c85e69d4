use crate::uuid::Uuid;
use vstd::prelude::*;

verus! {

/// A group of properties to include in each enumerated device node.
#[derive(Clone, Copy, Debug, PartialEq, Eq, Structural)]
pub enum EnumerateOption {
    IncludeInstanceProperties,
    IncludeDeviceInterfaceClassProperties,
    IncludeDeviceInterfaceProperties,
    IncludeSetupClassProperties,
}

/// Which devices to enumerate.
#[derive(Clone, Debug)]
pub enum EnumerateSpecifier {
    AllDevices,
    DeviceInterfaceClassGuid(Uuid),
    DeviceSetupClassGuid(Uuid),
    /// Devices under an instance id, optionally with the interface class
    /// that their interfaces belong to.
    PnpDeviceInstanceId(String, Option<Uuid>),
    PnpEnumeratorId(String),
}

} // verus!

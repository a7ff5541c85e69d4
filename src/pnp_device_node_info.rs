use crate::property_map::PnpDevicePropertyMap;
use crate::uuid::Uuid;
use vstd::prelude::*;

verus! {

/// What an enumeration found out about one device node.
#[derive(Debug, PartialEq, Eq)]
pub struct PnpDeviceNodeInfo {
    pub device_instance_id: String,
    /// The container the device belongs to; `None` for devices with no
    /// container, such as bus drivers.
    pub base_container_id: Option<Uuid>,
    pub device_instance_properties: Option<PnpDevicePropertyMap>,
    /// Present when requested and the device has a setup class.
    pub device_setup_class_properties: Option<PnpDevicePropertyMap>,
    /// Present when the device node is a device interface.
    pub device_path: Option<String>,
    /// Present when requested and the device node is a device interface.
    pub device_interface_properties: Option<PnpDevicePropertyMap>,
    /// Present when requested and the interface class is known.
    pub device_interface_class_properties: Option<PnpDevicePropertyMap>,
}

} // verus!

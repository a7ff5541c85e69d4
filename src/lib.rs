//! Windows Plug-and-Play device enumeration: a UUID codec, a decoder for
//! device property buffers, and the enumeration procedure as a state machine
//! that asks its caller to perform each native SetupAPI call. Beside it, the
//! pure parts of a Bluetooth battery tray: finding battery levels among the
//! enumerated devices and the lines the tray shows.

pub mod bluetooth;
pub mod decode;
pub mod enums;
pub mod errors;
pub mod pnp_device_node_info;
pub mod pnp_enumeration;
pub mod pnp_enumerator;
pub mod property_key;
pub mod property_map;
pub mod property_value;
pub mod tray_info;
pub mod uuid;

pub use enums::{EnumerateOption, EnumerateSpecifier};
pub use errors::EnumerateError;
pub use pnp_device_node_info::PnpDeviceNodeInfo;
pub use pnp_enumeration::PnpEnumeration;
pub use pnp_enumerator::PnpEnumerator;
pub use property_key::PnpDevicePropertyKey;
pub use property_map::PnpDevicePropertyMap;
pub use property_value::PnpDevicePropertyValue;
pub use uuid::Uuid;

use crate::uuid::Uuid;
use vstd::prelude::*;

verus! {

/// A decoded property value. Arrays hold fixed-size elements (bytes,
/// booleans, GUIDs, 16- and 32-bit integers); lists hold strings. A type the
/// decoder does not know is kept as its raw type code.
#[derive(Debug, PartialEq, Eq)]
pub enum PnpDevicePropertyValue {
    ArrayOfValues(Vec<PnpDevicePropertyValue>),
    Boolean(bool),
    Byte(u8),
    Guid(Uuid),
    ListOfValues(Vec<PnpDevicePropertyValue>),
    String(String),
    UInt16(u16),
    UInt32(u32),
    UnsupportedPropertyDataType(u32),
    UnsupportedRegistryDataType(u32),
}

} // verus!

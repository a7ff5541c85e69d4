use crate::decode::{
    convert_property_buffer_into_device_property_value,
    convert_registry_buffer_into_device_property_value, decode_property, decode_registry_property,
    decodes_to, failure_of, utf16_text, DecodeFailure, Decoded, GetDevicePropertyValueError,
    ERROR_INVALID_DATA,
};
use crate::property_map::entries_insert;
use crate::errors::EnumerateError;
use crate::pnp_device_node_info::PnpDeviceNodeInfo;
use crate::pnp_enumerator::{
    base_container_id_from_value, check_required_size_query,
    check_setup_di_get_device_xxx_property_required_size_result,
    check_setup_di_get_xxx_property_keys_required_size_result,
    device_instance_id_from_units, device_interface_detail_header_size,
    device_path_from_detail_buffer, device_setup_class_guid_from_outcome, enumerate_error_of,
    container_id_of, container_of_text, device_path_units, keys_size_outcome, size_query_outcome,
    value_size_outcome,
    DeviceQuery, EnumerateOptionSet, GetDevicePropertyKeysError, DICLASSPROP_INSTALLER,
    DICLASSPROP_INTERFACE, ERROR_NO_MORE_ITEMS, SPDRP_BASE_CONTAINERID, SPDRP_CLASSGUID,
};
use crate::property_key::PnpDevicePropertyKey;
use crate::property_map::PnpDevicePropertyMap;
use crate::property_value::PnpDevicePropertyValue;
use crate::uuid::{parse_uuid, Uuid};
use vstd::prelude::*;

verus! {

/// The native call that an enumeration needs next. Calls about "the
/// device" concern the device that the last `EnumDeviceInfo` returned, and
/// calls about "the interface" the interface that the last
/// `EnumDeviceInterface` returned. A `buffer_len` of zero asks for the
/// required size only.
#[derive(Debug)]
#[allow(inconsistent_fields)]
pub enum NativeRequest {
    OpenDeviceInfoSet { class_guid: Option<Uuid>, enumerator: Option<String>, flags: u32 },
    EnumDeviceInfo { device_index: u32 },
    /// The instance id, in UTF-16 code units.
    GetDeviceInstanceId { buffer_len: u32 },
    GetDeviceRegistryProperty { property: u32, buffer_len: u32 },
    GetDevicePropertyKeys { buffer_len: u32 },
    GetDeviceProperty { key: PnpDevicePropertyKey, buffer_len: u32 },
    GetClassPropertyKeys { class_guid: Uuid, flags: u32, buffer_len: u32 },
    GetClassProperty { class_guid: Uuid, flags: u32, key: PnpDevicePropertyKey, buffer_len: u32 },
    EnumDeviceInterface { interface_class_guid: Uuid, device_index: u32 },
    /// The interface detail record, whose size field is set to `cb_size`.
    GetDeviceInterfaceDetail { buffer_len: u32, cb_size: u32 },
    GetDeviceInterfacePropertyKeys { buffer_len: u32 },
    GetDeviceInterfaceProperty { key: PnpDevicePropertyKey, buffer_len: u32 },
    DestroyDeviceInfoSet,
    /// Nothing more: the result is ready.
    Finished,
}

/// What a native call reported: whether it succeeded, the last error when
/// it did not, the size or count it asked for, the type of the data, and
/// what it filled in.
#[derive(Debug)]
pub struct NativeReply {
    pub succeeded: bool,
    pub last_error: u32,
    pub required_size: u32,
    pub data_type: u32,
    pub data: Vec<u8>,
    pub units: Vec<u16>,
    pub keys: Vec<PnpDevicePropertyKey>,
}

/// Whose properties are being collected.
#[derive(Clone, Copy, Debug)]
pub enum PropertyScope {
    Instance,
    SetupClass(Uuid),
    InterfaceClass(Uuid),
    Interface,
}

/// Where a walk stands: which native call it waits on.
#[derive(Clone, Copy, Debug)]
pub enum WalkPhase {
    Opening,
    NextDevice,
    InstanceIdSize,
    InstanceIdFetch(u32),
    RegistrySize(u32),
    RegistryFetch(u32, u32),
    KeysSize(PropertyScope),
    KeysFetch(PropertyScope, u32),
    ValueSize(PropertyScope),
    ValueFetch(PropertyScope, u32),
    InterfaceProbe(Uuid),
    DetailSize,
    DetailFetch(u32),
    Destroying,
    Done,
}

/// One enumeration of present devices, driven one native call at a time:
/// `request` says which call to make, and `resume` takes what it reported.
/// A device information set that was opened is destroyed before the
/// enumeration finishes, whether it ends with devices or with an error.
pub struct PnpEnumeration {
    query: DeviceQuery,
    options: EnumerateOptionSet,
    specified_setup_class: Option<Uuid>,
    phase: WalkPhase,
    device_index: u32,
    devices: Vec<PnpDeviceNodeInfo>,
    error: Option<EnumerateError>,
    instance_id: String,
    base_container_id: Option<Uuid>,
    instance_properties: Option<PnpDevicePropertyMap>,
    setup_class_properties: Option<PnpDevicePropertyMap>,
    interface_class_properties: Option<PnpDevicePropertyMap>,
    device_path: Option<String>,
    interface_properties: Option<PnpDevicePropertyMap>,
    keys: Vec<PnpDevicePropertyKey>,
    key_index: usize,
    collected: PnpDevicePropertyMap,
    opened: Ghost<nat>,
    destroyed: Ghost<nat>,
}

/// What spec code says of a device node: its text fields as characters and
/// its property groups as their entries.
pub struct NodeModel {
    pub device_instance_id: Seq<char>,
    pub base_container_id: Option<Uuid>,
    pub device_instance_properties: Option<Seq<(PnpDevicePropertyKey, PnpDevicePropertyValue)>>,
    pub device_setup_class_properties: Option<Seq<(PnpDevicePropertyKey, PnpDevicePropertyValue)>>,
    pub device_path: Option<Seq<char>>,
    pub device_interface_properties: Option<Seq<(PnpDevicePropertyKey, PnpDevicePropertyValue)>>,
    pub device_interface_class_properties: Option<
        Seq<(PnpDevicePropertyKey, PnpDevicePropertyValue)>,
    >,
}

/// How an enumeration failed, without the decoding error's details.
pub enum ErrorKind {
    StringDecoding,
    StringTermination,
    Win32(u32),
}

pub open spec fn error_kind(e: EnumerateError) -> ErrorKind {
    match e {
        EnumerateError::StringDecodingError(_) => ErrorKind::StringDecoding,
        EnumerateError::StringTerminationDecodingError => ErrorKind::StringTermination,
        EnumerateError::Win32Error(c) => ErrorKind::Win32(c),
    }
}

/// How a failed fetch or decode is reported.
pub open spec fn failure_kind(f: DecodeFailure) -> ErrorKind {
    match f {
        DecodeFailure::Win32(c) => ErrorKind::Win32(c),
        DecodeFailure::StringDecoding => ErrorKind::StringDecoding,
        _ => ErrorKind::StringTermination,
    }
}

/// The state of a walk: where it stands, the devices finished, the device
/// being walked, the keys of the group being collected with the entries
/// collected so far, and the error that ended it, if any.
pub struct WalkModel {
    pub phase: WalkPhase,
    pub device_index: u32,
    pub devices: Seq<NodeModel>,
    pub current: NodeModel,
    pub keys: Seq<PnpDevicePropertyKey>,
    pub key_index: int,
    pub collected: Seq<(PnpDevicePropertyKey, PnpDevicePropertyValue)>,
    pub error: Option<ErrorKind>,
}

/// What a walk keeps from its start: the groups asked for, the interface
/// class to probe, and the setup class the caller named.
pub struct WalkContext {
    pub options: EnumerateOptionSet,
    pub interface_class: Option<Uuid>,
    pub specified_setup_class: Option<Uuid>,
}

pub open spec fn entries_of(m: Option<PnpDevicePropertyMap>) -> Option<
    Seq<(PnpDevicePropertyKey, PnpDevicePropertyValue)>,
> {
    match m {
        Some(m) => Some(m.spec_entries()),
        None => None,
    }
}

pub open spec fn text_of(s: Option<String>) -> Option<Seq<char>> {
    match s {
        Some(s) => Some(s@),
        None => None,
    }
}

pub open spec fn node_view(n: PnpDeviceNodeInfo) -> NodeModel {
    NodeModel {
        device_instance_id: n.device_instance_id@,
        base_container_id: n.base_container_id,
        device_instance_properties: entries_of(n.device_instance_properties),
        device_setup_class_properties: entries_of(n.device_setup_class_properties),
        device_path: text_of(n.device_path),
        device_interface_properties: entries_of(n.device_interface_properties),
        device_interface_class_properties: entries_of(n.device_interface_class_properties),
    }
}

/// A device node with nothing found yet.
pub open spec fn empty_node() -> NodeModel {
    NodeModel {
        device_instance_id: seq![],
        base_container_id: None,
        device_instance_properties: None,
        device_setup_class_properties: None,
        device_path: None,
        device_interface_properties: None,
        device_interface_class_properties: None,
    }
}

/// Ends the walk with an error; the set is destroyed next.
pub open spec fn failed(m: WalkModel, k: ErrorKind) -> WalkModel {
    WalkModel { phase: WalkPhase::Destroying, error: Some(k), ..m }
}

/// Appends the device walked and moves to the next index; the walk ends
/// after the largest index.
pub open spec fn finished_device(m: WalkModel) -> WalkModel {
    WalkModel {
        devices: m.devices.push(m.current),
        current: empty_node(),
        device_index: if m.device_index == u32::MAX - 1 {
            m.device_index
        } else {
            (m.device_index + 1) as u32
        },
        phase: if m.device_index == u32::MAX - 1 {
            WalkPhase::Destroying
        } else {
            WalkPhase::NextDevice
        },
        ..m
    }
}

/// Starts collecting the properties of `scope`.
pub open spec fn begun(m: WalkModel, scope: PropertyScope) -> WalkModel {
    WalkModel { phase: WalkPhase::KeysSize(scope), keys: seq![], key_index: 0, collected: seq![], ..m }
}

/// After the interface class group: probe for an interface when the class
/// is known, else the device is done and is no interface.
pub open spec fn after_interface_class(c: WalkContext, m: WalkModel) -> WalkModel {
    match c.interface_class {
        Some(g) => WalkModel { phase: WalkPhase::InterfaceProbe(g), ..m },
        None => finished_device(
            WalkModel {
                current: NodeModel { device_path: None, device_interface_properties: None, ..m.current },
                ..m
            },
        ),
    }
}

/// After the setup class group: the interface class group when asked for
/// and known.
pub open spec fn after_setup_class(c: WalkContext, m: WalkModel) -> WalkModel {
    match c.interface_class {
        Some(g) => if c.options.include_device_interface_class_properties {
            begun(m, PropertyScope::InterfaceClass(g))
        } else {
            after_interface_class(
                c,
                WalkModel {
                    current: NodeModel { device_interface_class_properties: None, ..m.current },
                    ..m
                },
            )
        },
        None => after_interface_class(
            c,
            WalkModel {
                current: NodeModel { device_interface_class_properties: None, ..m.current },
                ..m
            },
        ),
    }
}

/// After the instance group: read the setup class when its group is asked
/// for.
pub open spec fn after_instance(c: WalkContext, m: WalkModel) -> WalkModel {
    if c.options.include_setup_class_properties {
        WalkModel { phase: WalkPhase::RegistrySize(SPDRP_CLASSGUID), ..m }
    } else {
        after_setup_class(
            c,
            WalkModel {
                current: NodeModel { device_setup_class_properties: None, ..m.current },
                ..m
            },
        )
    }
}

/// After the container id: the instance group when asked for.
pub open spec fn after_container(c: WalkContext, m: WalkModel) -> WalkModel {
    if c.options.include_instance_properties {
        begun(m, PropertyScope::Instance)
    } else {
        after_instance(
            c,
            WalkModel { current: NodeModel { device_instance_properties: None, ..m.current }, ..m },
        )
    }
}

/// Moves to the next key of the group, or stores the group and goes on.
pub open spec fn next_key_step(c: WalkContext, m: WalkModel, scope: PropertyScope) -> WalkModel {
    if m.key_index < m.keys.len() {
        WalkModel { phase: WalkPhase::ValueSize(scope), ..m }
    } else {
        let group = Some(m.collected);
        let cleared = WalkModel { collected: seq![], ..m };
        match scope {
            PropertyScope::Instance => after_instance(
                c,
                WalkModel {
                    current: NodeModel { device_instance_properties: group, ..m.current },
                    ..cleared
                },
            ),
            PropertyScope::SetupClass(_) => after_setup_class(
                c,
                WalkModel {
                    current: NodeModel { device_setup_class_properties: group, ..m.current },
                    ..cleared
                },
            ),
            PropertyScope::InterfaceClass(_) => after_interface_class(
                c,
                WalkModel {
                    current: NodeModel { device_interface_class_properties: group, ..m.current },
                    ..cleared
                },
            ),
            PropertyScope::Interface => finished_device(
                WalkModel {
                    current: NodeModel { device_interface_properties: group, ..m.current },
                    ..cleared
                },
            ),
        }
    }
}

/// The container id that a decoded base-container-id property gives.
pub open spec fn container_step(d: Decoded) -> Result<Option<Uuid>, ErrorKind> {
    match d {
        Decoded::Text(cs) => Ok(container_of_text(cs)),
        Decoded::Value(v) => match container_id_of(v) {
            Ok(c) => Ok(c),
            Err(_) => Err(ErrorKind::Win32(ERROR_INVALID_DATA)),
        },
        Decoded::Failed(f) => Err(failure_kind(f)),
        _ => Err(ErrorKind::Win32(ERROR_INVALID_DATA)),
    }
}

/// The setup class whose properties to collect, given the decoded
/// class-GUID property: a failure is reported except invalid data, the
/// answer of a node without a class; a specified class wins.
pub open spec fn class_step(d: Decoded, specified: Option<Uuid>) -> Result<Option<Uuid>, ErrorKind> {
    match d {
        Decoded::Failed(DecodeFailure::Win32(c)) if c != ERROR_INVALID_DATA => Err(ErrorKind::Win32(c)),
        Decoded::Failed(DecodeFailure::Win32(_)) => Ok(specified),
        Decoded::Failed(f) => Err(failure_kind(f)),
        _ => Ok(
            match specified {
                Some(g) => Some(g),
                None => match d {
                    Decoded::Text(cs) => parse_uuid(cs),
                    Decoded::Value(PnpDevicePropertyValue::String(s)) => parse_uuid(s@),
                    _ => None,
                },
            },
        ),
    }
}

/// The walk after a registry property of the device was read as `d`.
pub open spec fn registry_step(c: WalkContext, m: WalkModel, property: u32, d: Decoded) -> WalkModel {
    if property == SPDRP_BASE_CONTAINERID {
        match container_step(d) {
            Ok(container) => after_container(
                c,
                WalkModel { current: NodeModel { base_container_id: container, ..m.current }, ..m },
            ),
            Err(k) => failed(m, k),
        }
    } else {
        match class_step(d, c.specified_setup_class) {
            Ok(Some(g)) => begun(m, PropertyScope::SetupClass(g)),
            Ok(None) => after_setup_class(
                c,
                WalkModel {
                    current: NodeModel { device_setup_class_properties: None, ..m.current },
                    ..m
                },
            ),
            Err(k) => failed(m, k),
        }
    }
}

/// What a filled buffer decodes to, or the failure of the call.
pub open spec fn fetched(r: NativeReply, registry: bool) -> Decoded {
    if !r.succeeded {
        Decoded::Failed(DecodeFailure::Win32(r.last_error))
    } else if registry {
        decode_registry_property(r.data@, r.data_type)
    } else {
        decode_property(r.data@, r.data_type)
    }
}

/// One step of a walk: `n` is the state after reply `r` in state `m`.
/// Every step is determined, except that a decoded property value is one
/// that the buffer decodes to.
pub open spec fn step(c: WalkContext, m: WalkModel, r: NativeReply, n: WalkModel) -> bool {
    match m.phase {
        WalkPhase::Opening => n == if r.succeeded {
            WalkModel { phase: WalkPhase::NextDevice, ..m }
        } else {
            WalkModel { phase: WalkPhase::Done, error: Some(ErrorKind::Win32(r.last_error)), ..m }
        },
        WalkPhase::NextDevice => n == if r.succeeded {
            WalkModel { phase: WalkPhase::InstanceIdSize, current: empty_node(), ..m }
        } else if r.last_error == ERROR_NO_MORE_ITEMS {
            WalkModel { phase: WalkPhase::Destroying, ..m }
        } else {
            failed(m, ErrorKind::Win32(r.last_error))
        },
        WalkPhase::InstanceIdSize => n == match size_query_outcome(r.succeeded, r.last_error) {
            Err(code) => failed(m, ErrorKind::Win32(code)),
            Ok(_) => if r.required_size <= 1 {
                failed(m, ErrorKind::Win32(ERROR_INVALID_DATA))
            } else {
                WalkModel { phase: WalkPhase::InstanceIdFetch(r.required_size), ..m }
            },
        },
        WalkPhase::InstanceIdFetch(size) => n == if !r.succeeded {
            failed(m, ErrorKind::Win32(r.last_error))
        } else if size <= 1 || r.units@.len() < size {
            failed(m, ErrorKind::Win32(ERROR_INVALID_DATA))
        } else {
            match utf16_text(r.units@.subrange(0, size - 1)) {
                Some(cs) => WalkModel {
                    phase: WalkPhase::RegistrySize(SPDRP_BASE_CONTAINERID),
                    current: NodeModel { device_instance_id: cs, ..m.current },
                    ..m
                },
                None => failed(m, ErrorKind::StringDecoding),
            }
        },
        WalkPhase::RegistrySize(p) => n == match value_size_outcome(
            r.succeeded,
            r.last_error,
            r.required_size,
        ) {
            Ok(_) => WalkModel { phase: WalkPhase::RegistryFetch(p, r.required_size), ..m },
            Err(e) => registry_step(c, m, p, Decoded::Failed(failure_of(e))),
        },
        WalkPhase::RegistryFetch(p, _) => n == registry_step(c, m, p, fetched(r, true)),
        WalkPhase::KeysSize(scope) => n == match keys_size_outcome(
            r.succeeded,
            r.last_error,
            r.required_size,
        ) {
            Ok(_) => WalkModel { phase: WalkPhase::KeysFetch(scope, r.required_size), ..m },
            Err(GetDevicePropertyKeysError::Win32Error(code)) => failed(m, ErrorKind::Win32(code)),
        },
        WalkPhase::KeysFetch(scope, _) => n == if !r.succeeded {
            failed(m, ErrorKind::Win32(r.last_error))
        } else {
            next_key_step(c, WalkModel { keys: r.keys@, key_index: 0, ..m }, scope)
        },
        WalkPhase::ValueSize(scope) => n == match value_size_outcome(
            r.succeeded,
            r.last_error,
            r.required_size,
        ) {
            Ok(_) => WalkModel { phase: WalkPhase::ValueFetch(scope, r.required_size), ..m },
            Err(e) => failed(m, failure_kind(failure_of(e))),
        },
        WalkPhase::ValueFetch(scope, _) => match fetched(r, false) {
            Decoded::Failed(f) => n == failed(m, failure_kind(f)),
            d => exists|v: PnpDevicePropertyValue|
                decodes_to(Ok(v), d) && n == next_key_step(
                    c,
                    WalkModel {
                        collected: #[trigger] entries_insert(m.collected, m.keys[m.key_index], v),
                        key_index: m.key_index + 1,
                        ..m
                    },
                    scope,
                ),
        },
        WalkPhase::InterfaceProbe(_) => n == if r.succeeded {
            WalkModel { phase: WalkPhase::DetailSize, ..m }
        } else if r.last_error == ERROR_NO_MORE_ITEMS {
            finished_device(
                WalkModel {
                    current: NodeModel { device_path: None, device_interface_properties: None, ..m.current },
                    ..m
                },
            )
        } else {
            failed(m, ErrorKind::Win32(r.last_error))
        },
        WalkPhase::DetailSize => n == match size_query_outcome(r.succeeded, r.last_error) {
            Err(code) => failed(m, ErrorKind::Win32(code)),
            Ok(_) => WalkModel { phase: WalkPhase::DetailFetch(r.required_size), ..m },
        },
        WalkPhase::DetailFetch(size) => n == if !r.succeeded {
            failed(m, ErrorKind::Win32(r.last_error))
        } else if size < 6 || r.data@.len() < size {
            failed(m, ErrorKind::Win32(ERROR_INVALID_DATA))
        } else {
            match utf16_text(device_path_units(r.data@, size)) {
                Some(cs) => {
                    let with_path = WalkModel {
                        current: NodeModel { device_path: Some(cs), ..m.current },
                        ..m
                    };
                    if c.options.include_device_interface_properties {
                        begun(with_path, PropertyScope::Interface)
                    } else {
                        finished_device(
                            WalkModel {
                                current: NodeModel { device_interface_properties: None, ..with_path.current },
                                ..with_path
                            },
                        )
                    }
                },
                None => failed(m, ErrorKind::StringDecoding),
            }
        },
        WalkPhase::Destroying => n == WalkModel { phase: WalkPhase::Done, ..m },
        WalkPhase::Done => n == m,
    }
}

pub open spec fn spec_keys_request(scope: PropertyScope, buffer_len: u32) -> NativeRequest {
    match scope {
        PropertyScope::Instance => NativeRequest::GetDevicePropertyKeys { buffer_len },
        PropertyScope::SetupClass(g) => NativeRequest::GetClassPropertyKeys {
            class_guid: g,
            flags: DICLASSPROP_INSTALLER,
            buffer_len,
        },
        PropertyScope::InterfaceClass(g) => NativeRequest::GetClassPropertyKeys {
            class_guid: g,
            flags: DICLASSPROP_INTERFACE,
            buffer_len,
        },
        PropertyScope::Interface => NativeRequest::GetDeviceInterfacePropertyKeys { buffer_len },
    }
}

pub open spec fn spec_value_request(
    scope: PropertyScope,
    key: PnpDevicePropertyKey,
    buffer_len: u32,
) -> NativeRequest {
    match scope {
        PropertyScope::Instance => NativeRequest::GetDeviceProperty { key, buffer_len },
        PropertyScope::SetupClass(g) => NativeRequest::GetClassProperty {
            class_guid: g,
            flags: DICLASSPROP_INSTALLER,
            key,
            buffer_len,
        },
        PropertyScope::InterfaceClass(g) => NativeRequest::GetClassProperty {
            class_guid: g,
            flags: DICLASSPROP_INTERFACE,
            key,
            buffer_len,
        },
        PropertyScope::Interface => NativeRequest::GetDeviceInterfaceProperty { key, buffer_len },
    }
}

/// The size of the fixed part of an interface detail record on this target.
pub open spec fn detail_header_size() -> u32 {
    if usize::BITS == 32 {
        6
    } else {
        8
    }
}

/// The native call that a walk in state `m` asks for; a set is opened with
/// the query's class, enumerator text and flags. A `buffer_len` of zero
/// asks for a size.
pub open spec fn request_matches(q: DeviceQuery, m: WalkModel, r: NativeRequest) -> bool {
    match m.phase {
        WalkPhase::Opening => match r {
            NativeRequest::OpenDeviceInfoSet { class_guid, enumerator, flags } => class_guid
                == q.class_guid && flags == q.flags && text_of(enumerator) == text_of(q.enumerator),
            _ => false,
        },
        WalkPhase::NextDevice => r == NativeRequest::EnumDeviceInfo { device_index: m.device_index },
        WalkPhase::InstanceIdSize => r == NativeRequest::GetDeviceInstanceId { buffer_len: 0 },
        WalkPhase::InstanceIdFetch(n) => r == NativeRequest::GetDeviceInstanceId { buffer_len: n },
        WalkPhase::RegistrySize(p) => r == NativeRequest::GetDeviceRegistryProperty {
            property: p,
            buffer_len: 0,
        },
        WalkPhase::RegistryFetch(p, n) => r == NativeRequest::GetDeviceRegistryProperty {
            property: p,
            buffer_len: n,
        },
        WalkPhase::KeysSize(scope) => r == spec_keys_request(scope, 0),
        WalkPhase::KeysFetch(scope, n) => r == spec_keys_request(scope, n),
        WalkPhase::ValueSize(scope) => r == spec_value_request(scope, m.keys[m.key_index], 0),
        WalkPhase::ValueFetch(scope, n) => r == spec_value_request(scope, m.keys[m.key_index], n),
        WalkPhase::InterfaceProbe(g) => r == NativeRequest::EnumDeviceInterface {
            interface_class_guid: g,
            device_index: m.device_index,
        },
        WalkPhase::DetailSize => r == NativeRequest::GetDeviceInterfaceDetail {
            buffer_len: 0,
            cb_size: detail_header_size(),
        },
        WalkPhase::DetailFetch(n) => r == NativeRequest::GetDeviceInterfaceDetail {
            buffer_len: n,
            cb_size: detail_header_size(),
        },
        WalkPhase::Destroying => r == NativeRequest::DestroyDeviceInfoSet,
        WalkPhase::Done => r == NativeRequest::Finished,
    }
}

/// A device node holds a property group only when it was asked for and
/// applies: interface groups and the device path need an interface class.
pub open spec fn respects_options(
    node: PnpDeviceNodeInfo,
    options: EnumerateOptionSet,
    interface_class: Option<Uuid>,
) -> bool {
    &&& !options.include_instance_properties ==> node.device_instance_properties is None
    &&& !options.include_setup_class_properties ==> node.device_setup_class_properties is None
    &&& (!options.include_device_interface_class_properties || interface_class is None)
        ==> node.device_interface_class_properties is None
    &&& (!options.include_device_interface_properties || interface_class is None)
        ==> node.device_interface_properties is None
    &&& interface_class is None ==> node.device_path is None
}

/// A device node holds the groups that were asked for and apply to every
/// device: its instance properties, and its interface class properties when
/// the interface class is known.
pub open spec fn holds_requested(
    node: PnpDeviceNodeInfo,
    options: EnumerateOptionSet,
    interface_class: Option<Uuid>,
) -> bool {
    &&& options.include_instance_properties ==> node.device_instance_properties is Some
    &&& options.include_device_interface_class_properties && interface_class is Some
        ==> node.device_interface_class_properties is Some
}

/// Whether the properties of `scope` are to be collected.
pub open spec fn scope_requested(
    scope: PropertyScope,
    options: EnumerateOptionSet,
    interface_class: Option<Uuid>,
) -> bool {
    match scope {
        PropertyScope::Instance => options.include_instance_properties,
        PropertyScope::SetupClass(_) => options.include_setup_class_properties,
        PropertyScope::InterfaceClass(_) => options.include_device_interface_class_properties
            && interface_class is Some,
        PropertyScope::Interface => options.include_device_interface_properties
            && interface_class is Some,
    }
}

impl PnpEnumeration {
    /// The state of the walk.
    pub closed spec fn model(&self) -> WalkModel {
        WalkModel {
            phase: self.phase,
            device_index: self.device_index,
            devices: self.devices@.map_values(|n: PnpDeviceNodeInfo| node_view(n)),
            current: NodeModel {
                device_instance_id: self.instance_id@,
                base_container_id: self.base_container_id,
                device_instance_properties: entries_of(self.instance_properties),
                device_setup_class_properties: entries_of(self.setup_class_properties),
                device_path: text_of(self.device_path),
                device_interface_properties: entries_of(self.interface_properties),
                device_interface_class_properties: entries_of(self.interface_class_properties),
            },
            keys: self.keys@,
            key_index: self.key_index as int,
            collected: self.collected.spec_entries(),
            error: match self.error {
                Some(e) => Some(error_kind(e)),
                None => None,
            },
        }
    }

    /// What the walk keeps from its start.
    pub closed spec fn context(&self) -> WalkContext {
        WalkContext {
            options: self.options,
            interface_class: self.query.interface_class_guid,
            specified_setup_class: self.specified_setup_class,
        }
    }

    /// How many times a device information set was opened.
    pub closed spec fn opened_count(&self) -> nat {
        self.opened@
    }

    /// How many times the device information set was destroyed.
    pub closed spec fn destroyed_count(&self) -> nat {
        self.destroyed@
    }

    pub closed spec fn is_opening(&self) -> bool {
        self.phase is Opening
    }

    pub closed spec fn is_destroying(&self) -> bool {
        self.phase is Destroying
    }

    pub closed spec fn is_done(&self) -> bool {
        self.phase is Done
    }

    pub closed spec fn spec_query(&self) -> DeviceQuery {
        self.query
    }

    pub closed spec fn spec_options(&self) -> EnumerateOptionSet {
        self.options
    }

    pub closed spec fn spec_specified_setup_class(&self) -> Option<Uuid> {
        self.specified_setup_class
    }

    pub closed spec fn spec_error(&self) -> Option<EnumerateError> {
        self.error
    }

    pub closed spec fn spec_devices(&self) -> Seq<PnpDeviceNodeInfo> {
        self.devices@
    }

    /// The index of the device being walked, or asked for next.
    pub closed spec fn spec_device_index(&self) -> u32 {
        self.device_index
    }

    /// The set is open while devices are walked, and it is destroyed once,
    /// and only when it was opened, before the enumeration is done.
    pub closed spec fn wf(&self) -> bool {
        &&& self.collected.wf()
        &&& self.device_index < u32::MAX
        &&& (self.phase is ValueSize || self.phase is ValueFetch) ==> self.key_index
            < self.keys@.len() <= usize::MAX
        &&& match self.phase {
            WalkPhase::Opening => self.opened@ == 0 && self.destroyed@ == 0,
            WalkPhase::Done => self.destroyed@ == self.opened@ && self.opened@ <= 1,
            _ => self.opened@ == 1 && self.destroyed@ == 0,
        }
        &&& !(self.phase is Destroying || self.phase is Done) ==> self.error is None
        &&& self.phase is Opening ==> self.devices@.len() == 0 && self.device_index == 0
        &&& forall|i: int|
            0 <= i < self.devices@.len() ==> respects_options(
                #[trigger] self.devices@[i],
                self.options,
                self.query.interface_class_guid,
            )
        &&& self.current_respects_options()
        &&& forall|i: int|
            0 <= i < self.devices@.len() ==> holds_requested(
                #[trigger] self.devices@[i],
                self.options,
                self.query.interface_class_guid,
            )
        &&& (self.instance_stage_done() && self.options.include_instance_properties
            ==> self.instance_properties is Some)
        &&& (self.interface_class_stage_done()
            && self.options.include_device_interface_class_properties
            && self.query.interface_class_guid is Some ==> self.interface_class_properties is Some)
    }

    /// The walk of the current device is past its instance properties.
    closed spec fn instance_stage_done(&self) -> bool {
        match self.phase {
            WalkPhase::RegistrySize(p) => p != SPDRP_BASE_CONTAINERID,
            WalkPhase::RegistryFetch(p, _) => p != SPDRP_BASE_CONTAINERID,
            WalkPhase::KeysSize(scope) => !(scope is Instance),
            WalkPhase::KeysFetch(scope, _) => !(scope is Instance),
            WalkPhase::ValueSize(scope) => !(scope is Instance),
            WalkPhase::ValueFetch(scope, _) => !(scope is Instance),
            WalkPhase::InterfaceProbe(_) => true,
            WalkPhase::DetailSize => true,
            WalkPhase::DetailFetch(_) => true,
            _ => false,
        }
    }

    /// The walk of the current device is past its interface class
    /// properties.
    closed spec fn interface_class_stage_done(&self) -> bool {
        match self.phase {
            WalkPhase::KeysSize(scope) => scope is Interface,
            WalkPhase::KeysFetch(scope, _) => scope is Interface,
            WalkPhase::ValueSize(scope) => scope is Interface,
            WalkPhase::ValueFetch(scope, _) => scope is Interface,
            WalkPhase::InterfaceProbe(_) => true,
            WalkPhase::DetailSize => true,
            WalkPhase::DetailFetch(_) => true,
            _ => false,
        }
    }

    closed spec fn instance_part_ready(&self) -> bool {
        self.options.include_instance_properties ==> self.instance_properties is Some
    }

    closed spec fn interface_class_part_ready(&self) -> bool {
        self.options.include_device_interface_class_properties
            && self.query.interface_class_guid is Some ==> self.interface_class_properties is Some
    }

    /// The groups of the device being walked obey the same rule as a
    /// finished node, and so does the group being collected.
    closed spec fn current_respects_options(&self) -> bool {
        let options = self.options;
        let interface_class = self.query.interface_class_guid;
        &&& !options.include_instance_properties ==> self.instance_properties is None
        &&& !options.include_setup_class_properties ==> self.setup_class_properties is None
        &&& (!options.include_device_interface_class_properties || interface_class is None)
            ==> self.interface_class_properties is None
        &&& (!options.include_device_interface_properties || interface_class is None)
            ==> self.interface_properties is None
        &&& interface_class is None ==> self.device_path is None
        &&& match self.phase {
            WalkPhase::KeysSize(scope) => scope_requested(scope, options, interface_class),
            WalkPhase::KeysFetch(scope, _) => scope_requested(scope, options, interface_class),
            WalkPhase::ValueSize(scope) => scope_requested(scope, options, interface_class),
            WalkPhase::ValueFetch(scope, _) => scope_requested(scope, options, interface_class),
            WalkPhase::RegistrySize(p) => p == SPDRP_BASE_CONTAINERID
                || options.include_setup_class_properties,
            WalkPhase::RegistryFetch(p, _) => p == SPDRP_BASE_CONTAINERID
                || options.include_setup_class_properties,
            WalkPhase::InterfaceProbe(_) => interface_class is Some,
            WalkPhase::DetailSize => interface_class is Some,
            WalkPhase::DetailFetch(_) => interface_class is Some,
            _ => true,
        }
    }

    /// Whether the enumeration is asking for the next device.
    pub closed spec fn is_seeking_device(&self) -> bool {
        self.phase is NextDevice
    }

    closed spec fn walking(&self) -> bool {
        &&& self.error is None
        &&& forall|i: int|
            0 <= i < self.devices@.len() ==> respects_options(
                #[trigger] self.devices@[i],
                self.options,
                self.query.interface_class_guid,
            )
        &&& self.fields_respect_options()
        &&& forall|i: int|
            0 <= i < self.devices@.len() ==> holds_requested(
                #[trigger] self.devices@[i],
                self.options,
                self.query.interface_class_guid,
            )
        &&& self.collected.wf()
        &&& self.device_index < u32::MAX
        &&& self.opened@ == 1
        &&& self.destroyed@ == 0
    }

    /// The finished groups of the device being walked obey the rule.
    closed spec fn fields_respect_options(&self) -> bool {
        let options = self.options;
        let interface_class = self.query.interface_class_guid;
        &&& !options.include_instance_properties ==> self.instance_properties is None
        &&& !options.include_setup_class_properties ==> self.setup_class_properties is None
        &&& (!options.include_device_interface_class_properties || interface_class is None)
            ==> self.interface_class_properties is None
        &&& (!options.include_device_interface_properties || interface_class is None)
            ==> self.interface_properties is None
        &&& interface_class is None ==> self.device_path is None
    }

    closed spec fn walking_after(&self, before: &PnpEnumeration) -> bool {
        &&& self.wf()
        &&& self.options == before.options
        &&& self.query == before.query
        &&& self.devices@.len() <= before.devices@.len() + 1
        &&& before.devices@.len() <= self.devices@.len()
        &&& forall|i: int|
            0 <= i < before.devices@.len() ==> #[trigger] self.devices@[i] == before.devices@[i]
        &&& self.opened@ == before.opened@
        &&& self.destroyed@ == before.destroyed@
        &&& !(self.phase is Opening)
        &&& !(self.phase is Done)
    }

    /// Starts an enumeration of the devices that `query` selects.
    pub fn new(
        query: DeviceQuery,
        options: EnumerateOptionSet,
        specified_setup_class: Option<Uuid>,
    ) -> (r: PnpEnumeration)
        ensures
            r.wf(),
            r.is_opening(),
            r.opened_count() == 0,
            r.destroyed_count() == 0,
            r.spec_query() == query,
            r.spec_options() == options,
            r.spec_specified_setup_class() == specified_setup_class,
            r.spec_device_index() == 0,
            r.spec_devices().len() == 0,
            r.spec_error() is None,
            r.model().current == empty_node(),
            r.context() == (WalkContext {
                options,
                interface_class: query.interface_class_guid,
                specified_setup_class,
            }),
    {
        PnpEnumeration {
            query,
            options,
            specified_setup_class,
            phase: WalkPhase::Opening,
            device_index: 0,
            devices: Vec::new(),
            error: None,
            instance_id: String::new(),
            base_container_id: None,
            instance_properties: None,
            setup_class_properties: None,
            interface_class_properties: None,
            device_path: None,
            interface_properties: None,
            keys: Vec::new(),
            key_index: 0,
            collected: PnpDevicePropertyMap::new(),
            opened: Ghost(0),
            destroyed: Ghost(0),
        }
    }

    pub fn is_finished(&self) -> (r: bool)
        ensures
            r == self.is_done(),
    {
        match self.phase {
            WalkPhase::Done => true,
            _ => false,
        }
    }

    /// The native call to make next.
    pub fn request(&self) -> (r: NativeRequest)
        requires
            self.wf(),
        ensures
            r is OpenDeviceInfoSet <==> self.is_opening(),
            r is DestroyDeviceInfoSet <==> self.is_destroying(),
            r is Finished <==> self.is_done(),
            r is OpenDeviceInfoSet ==> r->OpenDeviceInfoSet_class_guid == self.spec_query().class_guid
                && r->OpenDeviceInfoSet_flags == self.spec_query().flags,
            self.is_seeking_device() ==> r == (NativeRequest::EnumDeviceInfo {
                device_index: self.spec_device_index(),
            }),
            request_matches(self.spec_query(), self.model(), r),
    {
        let header = device_interface_detail_header_size((usize::BITS / 8) as usize);
        match self.phase {
            WalkPhase::Opening => NativeRequest::OpenDeviceInfoSet {
                class_guid: self.query.class_guid,
                enumerator: match &self.query.enumerator {
                    Some(e) => Some(e.clone()),
                    None => None,
                },
                flags: self.query.flags,
            },
            WalkPhase::NextDevice => NativeRequest::EnumDeviceInfo { device_index: self.device_index },
            WalkPhase::InstanceIdSize => NativeRequest::GetDeviceInstanceId { buffer_len: 0 },
            WalkPhase::InstanceIdFetch(n) => NativeRequest::GetDeviceInstanceId { buffer_len: n },
            WalkPhase::RegistrySize(p) => NativeRequest::GetDeviceRegistryProperty {
                property: p,
                buffer_len: 0,
            },
            WalkPhase::RegistryFetch(p, n) => NativeRequest::GetDeviceRegistryProperty {
                property: p,
                buffer_len: n,
            },
            WalkPhase::KeysSize(scope) => keys_request(scope, 0),
            WalkPhase::KeysFetch(scope, n) => keys_request(scope, n),
            WalkPhase::ValueSize(scope) => value_request(scope, self.keys[self.key_index], 0),
            WalkPhase::ValueFetch(scope, n) => value_request(scope, self.keys[self.key_index], n),
            WalkPhase::InterfaceProbe(g) => NativeRequest::EnumDeviceInterface {
                interface_class_guid: g,
                device_index: self.device_index,
            },
            WalkPhase::DetailSize => NativeRequest::GetDeviceInterfaceDetail {
                buffer_len: 0,
                cb_size: header,
            },
            WalkPhase::DetailFetch(n) => NativeRequest::GetDeviceInterfaceDetail {
                buffer_len: n,
                cb_size: header,
            },
            WalkPhase::Destroying => NativeRequest::DestroyDeviceInfoSet,
            WalkPhase::Done => NativeRequest::Finished,
        }
    }
}

fn keys_request(scope: PropertyScope, buffer_len: u32) -> (r: NativeRequest)
    ensures
        r == spec_keys_request(scope, buffer_len),
        !(r is OpenDeviceInfoSet || r is DestroyDeviceInfoSet || r is Finished),
{
    match scope {
        PropertyScope::Instance => NativeRequest::GetDevicePropertyKeys { buffer_len },
        PropertyScope::SetupClass(g) => NativeRequest::GetClassPropertyKeys {
            class_guid: g,
            flags: DICLASSPROP_INSTALLER,
            buffer_len,
        },
        PropertyScope::InterfaceClass(g) => NativeRequest::GetClassPropertyKeys {
            class_guid: g,
            flags: DICLASSPROP_INTERFACE,
            buffer_len,
        },
        PropertyScope::Interface => NativeRequest::GetDeviceInterfacePropertyKeys { buffer_len },
    }
}

fn value_request(scope: PropertyScope, key: PnpDevicePropertyKey, buffer_len: u32) -> (r:
    NativeRequest)
    ensures
        r == spec_value_request(scope, key, buffer_len),
        !(r is OpenDeviceInfoSet || r is DestroyDeviceInfoSet || r is Finished),
{
    match scope {
        PropertyScope::Instance => NativeRequest::GetDeviceProperty { key, buffer_len },
        PropertyScope::SetupClass(g) => NativeRequest::GetClassProperty {
            class_guid: g,
            flags: DICLASSPROP_INSTALLER,
            key,
            buffer_len,
        },
        PropertyScope::InterfaceClass(g) => NativeRequest::GetClassProperty {
            class_guid: g,
            flags: DICLASSPROP_INTERFACE,
            key,
            buffer_len,
        },
        PropertyScope::Interface => NativeRequest::GetDeviceInterfaceProperty { key, buffer_len },
    }
}

impl PnpEnumeration {
    /// Takes what the call that `request` asked for reported, and moves on.
    #[verifier::rlimit(100)]
    #[verifier::spinoff_prover]
    pub fn resume(&mut self, reply: NativeReply)
        requires
            old(self).wf(),
        ensures
            final(self).wf(),
            final(self).context() == old(self).context(),
            final(self).spec_query() == old(self).spec_query(),
            step(old(self).context(), old(self).model(), reply, final(self).model()),
            final(self).opened_count() == old(self).opened_count() + (if old(self).is_opening()
                && reply.succeeded {
                1nat
            } else {
                0nat
            }),
            final(self).destroyed_count() == old(self).destroyed_count() + (
            if old(self).is_destroying() {
                1nat
            } else {
                0nat
            }),
            old(self).is_opening() && reply.succeeded ==> final(self).is_seeking_device() && final(
                self).spec_device_index() == 0 && final(self).spec_devices().len() == 0,
            old(self).is_opening() && !reply.succeeded ==> final(self).is_done() && final(self).spec_error() == Some(EnumerateError::Win32Error(reply.last_error)),
            old(self).is_destroying() ==> final(self).is_done() && final(self).spec_error()
                == old(self).spec_error() && final(self).spec_devices() == old(self).spec_devices(),
            old(self).is_done() ==> final(self).is_done() && final(self).spec_error() == old(self).spec_error() && final(self).spec_devices() == old(self).spec_devices(),
            old(self).spec_error() is Some ==> final(self).spec_error() == old(self).spec_error(),
            old(self).spec_devices().len() <= final(self).spec_devices().len() <= old(
                self).spec_devices().len() + 1,
            forall|i: int|
                0 <= i < old(self).spec_devices().len() ==> #[trigger] final(self).spec_devices()[i]
                    == old(self).spec_devices()[i],
            old(self).is_seeking_device() && !reply.succeeded && reply.last_error
                == ERROR_NO_MORE_ITEMS ==> final(self).is_destroying() && final(self).spec_error()
                is None && final(self).spec_devices() == old(self).spec_devices(),
            old(self).is_seeking_device() && !reply.succeeded && reply.last_error
                != ERROR_NO_MORE_ITEMS ==> final(self).is_destroying() && final(self).spec_error()
                == Some(EnumerateError::Win32Error(reply.last_error)),
    {
        let phase = self.phase;
        match phase {
            WalkPhase::Opening => {
                if reply.succeeded {
                    self.opened = Ghost(1);
                    self.phase = WalkPhase::NextDevice;
                } else {
                    self.error = Some(EnumerateError::Win32Error(reply.last_error));
                    self.phase = WalkPhase::Done;
                }
            },
            WalkPhase::NextDevice => {
                if !reply.succeeded {
                    if reply.last_error == ERROR_NO_MORE_ITEMS {
                        self.phase = WalkPhase::Destroying;
                    } else {
                        self.fail(EnumerateError::Win32Error(reply.last_error));
                    }
                } else {
                    self.instance_id = String::new();
                    self.base_container_id = None;
                    self.instance_properties = None;
                    self.setup_class_properties = None;
                    self.interface_class_properties = None;
                    self.device_path = None;
                    self.interface_properties = None;
                    self.phase = WalkPhase::InstanceIdSize;
                }
            },
            WalkPhase::InstanceIdSize => {
                match check_required_size_query(reply.succeeded, reply.last_error) {
                    Err(code) => self.fail(EnumerateError::Win32Error(code)),
                    Ok(()) => {
                        if reply.required_size <= 1 {
                            self.fail(EnumerateError::Win32Error(ERROR_INVALID_DATA));
                        } else {
                            self.phase = WalkPhase::InstanceIdFetch(reply.required_size);
                        }
                    },
                }
            },
            WalkPhase::InstanceIdFetch(size) => {
                if !reply.succeeded {
                    self.fail(EnumerateError::Win32Error(reply.last_error));
                } else {
                    match device_instance_id_from_units(&reply.units, size) {
                        Ok(id) => {
                            self.instance_id = id;
                            self.phase = WalkPhase::RegistrySize(SPDRP_BASE_CONTAINERID);
                        },
                        Err(e) => self.fail(e),
                    }
                }
            },
            WalkPhase::RegistrySize(property) => {
                match check_setup_di_get_device_xxx_property_required_size_result(
                    reply.succeeded,
                    reply.last_error,
                    reply.required_size,
                ) {
                    Ok(()) => {
                        self.phase = WalkPhase::RegistryFetch(property, reply.required_size);
                    },
                    Err(e) => {
                        let ghost decoded = Decoded::Failed(failure_of(e));
                        self.on_registry_property(property, Err(e), Ghost(decoded));
                    },
                }
            },
            WalkPhase::RegistryFetch(property, _) => {
                let ghost decoded = fetched(reply, true);
                let outcome = if !reply.succeeded {
                    Err(GetDevicePropertyValueError::Win32Error(reply.last_error))
                } else {
                    convert_registry_buffer_into_device_property_value(reply.data, reply.data_type)
                };
                self.on_registry_property(property, outcome, Ghost(decoded));
            },
            WalkPhase::KeysSize(scope) => {
                match check_setup_di_get_xxx_property_keys_required_size_result(
                    reply.succeeded,
                    reply.last_error,
                    reply.required_size,
                ) {
                    Ok(()) => {
                        self.phase = WalkPhase::KeysFetch(scope, reply.required_size);
                    },
                    Err(GetDevicePropertyKeysError::Win32Error(code)) => self.fail(
                        EnumerateError::Win32Error(code),
                    ),
                }
            },
            WalkPhase::KeysFetch(scope, _) => {
                if !reply.succeeded {
                    self.fail(EnumerateError::Win32Error(reply.last_error));
                } else {
                    self.keys = reply.keys;
                    self.key_index = 0;
                    self.next_key(scope);
                }
            },
            WalkPhase::ValueSize(scope) => {
                match check_setup_di_get_device_xxx_property_required_size_result(
                    reply.succeeded,
                    reply.last_error,
                    reply.required_size,
                ) {
                    Ok(()) => {
                        self.phase = WalkPhase::ValueFetch(scope, reply.required_size);
                    },
                    Err(e) => self.fail(enumerate_error_of(e)),
                }
            },
            WalkPhase::ValueFetch(scope, _) => {
                let ghost decoded = fetched(reply, false);
                let ghost before = self.model();
                let outcome = if !reply.succeeded {
                    Err(GetDevicePropertyValueError::Win32Error(reply.last_error))
                } else {
                    convert_property_buffer_into_device_property_value(reply.data, reply.data_type)
                };
                match outcome {
                    Ok(value) => {
                        let ghost v = value;
                        let key = self.keys[self.key_index];
                        self.collected.insert(key, value);
                        self.key_index = self.key_index + 1;
                        let ghost inserted = self.model();
                        self.next_key(scope);
                        proof {
                            assert(inserted == WalkModel {
                                collected: entries_insert(before.collected, before.keys[before.key_index], v),
                                key_index: before.key_index + 1,
                                ..before
                            });
                            assert(decodes_to(Ok(v), decoded));
                        }
                    },
                    Err(e) => self.fail(enumerate_error_of(e)),
                }
            },
            WalkPhase::InterfaceProbe(_) => {
                if !reply.succeeded {
                    if reply.last_error == ERROR_NO_MORE_ITEMS {
                        self.device_path = None;
                        self.interface_properties = None;
                        self.finish_device();
                    } else {
                        self.fail(EnumerateError::Win32Error(reply.last_error));
                    }
                } else {
                    self.phase = WalkPhase::DetailSize;
                }
            },
            WalkPhase::DetailSize => {
                match check_required_size_query(reply.succeeded, reply.last_error) {
                    Err(code) => self.fail(EnumerateError::Win32Error(code)),
                    Ok(()) => {
                        self.phase = WalkPhase::DetailFetch(reply.required_size);
                    },
                }
            },
            WalkPhase::DetailFetch(size) => {
                if !reply.succeeded {
                    self.fail(EnumerateError::Win32Error(reply.last_error));
                } else {
                    match device_path_from_detail_buffer(&reply.data, size) {
                        Ok(path) => {
                            self.device_path = Some(path);
                            if self.options.include_device_interface_properties {
                                self.begin_collecting(PropertyScope::Interface);
                            } else {
                                self.interface_properties = None;
                                self.finish_device();
                            }
                        },
                        Err(e) => self.fail(e),
                    }
                }
            },
            WalkPhase::Destroying => {
                self.destroyed = Ghost(self.destroyed@ + 1);
                self.phase = WalkPhase::Done;
            },
            WalkPhase::Done => {},
        }
    }

    /// Ends the walk with an error, once the set is destroyed.
    fn fail(&mut self, e: EnumerateError)
        requires
            old(self).walking(),
        ensures
            final(self).model() == failed(old(self).model(), error_kind(e)),
            final(self).walking_after(old(self)),
            final(self).context() == old(self).context(),
            final(self).is_destroying(),
            final(self).spec_error() == Some(e),
            final(self).spec_devices() == old(self).spec_devices(),
    {
        self.error = Some(e);
        self.phase = WalkPhase::Destroying;
    }

    fn on_registry_property(
        &mut self,
        property: u32,
        outcome: Result<PnpDevicePropertyValue, GetDevicePropertyValueError>,
        Ghost(decoded): Ghost<Decoded>,
    )
        requires
            decodes_to(outcome, decoded),
            old(self).walking(),
            property != SPDRP_BASE_CONTAINERID ==> old(self).instance_part_ready(),
            property == SPDRP_BASE_CONTAINERID || old(self).options.include_setup_class_properties,
        ensures
            final(self).model() == registry_step(old(self).context(), old(self).model(), property, decoded),
            final(self).walking_after(old(self)),
            final(self).context() == old(self).context(),
    {
        if property == SPDRP_BASE_CONTAINERID {
            match outcome {
                Ok(value) => match base_container_id_from_value(&value) {
                    Ok(container) => {
                        self.base_container_id = container;
                        if self.options.include_instance_properties {
                            self.begin_collecting(PropertyScope::Instance);
                        } else {
                            self.instance_properties = None;
                            self.after_instance_properties();
                        }
                    },
                    Err(e) => self.fail(e),
                },
                Err(e) => self.fail(enumerate_error_of(e)),
            }
        } else {
            match device_setup_class_guid_from_outcome(outcome, self.specified_setup_class) {
                Ok(Some(g)) => self.begin_collecting(PropertyScope::SetupClass(g)),
                Ok(None) => {
                    self.setup_class_properties = None;
                    self.after_setup_class_properties();
                },
                Err(e) => self.fail(e),
            }
        }
    }

    fn begin_collecting(&mut self, scope: PropertyScope)
        requires
            old(self).walking(),
            !(scope is Instance) ==> old(self).instance_part_ready(),
            scope is Interface ==> old(self).interface_class_part_ready(),
            scope_requested(scope, old(self).options, old(self).query.interface_class_guid),
        ensures
            final(self).model() == begun(old(self).model(), scope),
            final(self).walking_after(old(self)),
            final(self).context() == old(self).context(),
    {
        self.keys = Vec::new();
        self.key_index = 0;
        self.collected = PnpDevicePropertyMap::new();
        self.phase = WalkPhase::KeysSize(scope);
    }

    fn next_key(&mut self, scope: PropertyScope)
        requires
            old(self).walking(),
            !(scope is Instance) ==> old(self).instance_part_ready(),
            scope is Interface ==> old(self).interface_class_part_ready(),
            scope_requested(scope, old(self).options, old(self).query.interface_class_guid),
        ensures
            final(self).model() == next_key_step(old(self).context(), old(self).model(), scope),
            final(self).walking_after(old(self)),
            final(self).context() == old(self).context(),
    {
        if self.key_index < self.keys.len() {
            self.phase = WalkPhase::ValueSize(scope);
        } else {
            let mut collected = PnpDevicePropertyMap::new();
            std::mem::swap(&mut collected, &mut self.collected);
            match scope {
                PropertyScope::Instance => {
                    self.instance_properties = Some(collected);
                    self.after_instance_properties();
                },
                PropertyScope::SetupClass(_) => {
                    self.setup_class_properties = Some(collected);
                    self.after_setup_class_properties();
                },
                PropertyScope::InterfaceClass(_) => {
                    self.interface_class_properties = Some(collected);
                    self.after_interface_class_properties();
                },
                PropertyScope::Interface => {
                    self.interface_properties = Some(collected);
                    self.finish_device();
                },
            }
        }
    }

    fn after_instance_properties(&mut self)
        requires
            old(self).walking(),
            old(self).instance_part_ready(),
        ensures
            final(self).model() == after_instance(old(self).context(), old(self).model()),
            final(self).walking_after(old(self)),
            final(self).context() == old(self).context(),
    {
        if self.options.include_setup_class_properties {
            self.phase = WalkPhase::RegistrySize(SPDRP_CLASSGUID);
        } else {
            self.setup_class_properties = None;
            self.after_setup_class_properties();
        }
    }

    fn after_setup_class_properties(&mut self)
        requires
            old(self).walking(),
            old(self).instance_part_ready(),
        ensures
            final(self).model() == after_setup_class(old(self).context(), old(self).model()),
            final(self).walking_after(old(self)),
            final(self).context() == old(self).context(),
    {
        match self.query.interface_class_guid {
            Some(g) => {
                if self.options.include_device_interface_class_properties {
                    self.begin_collecting(PropertyScope::InterfaceClass(g));
                } else {
                    self.interface_class_properties = None;
                    self.after_interface_class_properties();
                }
            },
            None => {
                self.interface_class_properties = None;
                self.after_interface_class_properties();
            },
        }
    }

    fn after_interface_class_properties(&mut self)
        requires
            old(self).walking(),
            old(self).instance_part_ready(),
            old(self).interface_class_part_ready(),
        ensures
            final(self).model() == after_interface_class(old(self).context(), old(self).model()),
            final(self).walking_after(old(self)),
            final(self).context() == old(self).context(),
    {
        match self.query.interface_class_guid {
            Some(g) => {
                self.phase = WalkPhase::InterfaceProbe(g);
            },
            None => {
                self.device_path = None;
                self.interface_properties = None;
                self.finish_device();
            },
        }
    }

    /// Records the device walked so far and moves to the next index; the
    /// walk ends after the largest index.
    fn finish_device(&mut self)
        requires
            old(self).walking(),
            old(self).instance_part_ready(),
            old(self).interface_class_part_ready(),
        ensures
            final(self).model() == finished_device(old(self).model()),
            final(self).walking_after(old(self)),
            final(self).context() == old(self).context(),
            final(self).spec_devices().len() == old(self).spec_devices().len() + 1,
    {
        let mut device_instance_id = String::new();
        std::mem::swap(&mut device_instance_id, &mut self.instance_id);
        let node = PnpDeviceNodeInfo {
            device_instance_id,
            base_container_id: self.base_container_id,
            device_instance_properties: self.instance_properties.take(),
            device_setup_class_properties: self.setup_class_properties.take(),
            device_path: self.device_path.take(),
            device_interface_properties: self.interface_properties.take(),
            device_interface_class_properties: self.interface_class_properties.take(),
        };
        self.base_container_id = None;
        self.devices.push(node);
        proof {
            assert(self.devices@.map_values(|n: PnpDeviceNodeInfo| node_view(n)) =~= old(
                self).devices@.map_values(|n: PnpDeviceNodeInfo| node_view(n)).push(node_view(node)));
        }
        if self.device_index == u32::MAX - 1 {
            self.phase = WalkPhase::Destroying;
        } else {
            self.device_index = self.device_index + 1;
            self.phase = WalkPhase::NextDevice;
        }
    }

    /// The devices found, or the error that ended the enumeration.
    pub fn into_result(self) -> (r: Result<Vec<PnpDeviceNodeInfo>, EnumerateError>)
        requires
            self.wf(),
            self.is_done(),
        ensures
            r is Ok ==> forall|i: int|
                0 <= i < r->Ok_0@.len() ==> respects_options(
                    #[trigger] r->Ok_0@[i],
                    self.spec_options(),
                    self.spec_query().interface_class_guid,
                ) && holds_requested(
                    r->Ok_0@[i],
                    self.spec_options(),
                    self.spec_query().interface_class_guid,
                ),
            match self.spec_error() {
                Some(e) => r == Err::<Vec<PnpDeviceNodeInfo>, EnumerateError>(e),
                None => r is Ok && r->Ok_0@ == self.spec_devices(),
            },
            r is Ok ==> r->Ok_0@.map_values(|n: PnpDeviceNodeInfo| node_view(n)) == self.model().devices,
    {
        match self.error {
            Some(e) => Err(e),
            None => Ok(self.devices),
        }
    }
}

/// However an enumeration ends, with devices or with an error, the device
/// information set it opened has been destroyed exactly once; a set that
/// failed to open is never destroyed.
pub proof fn lemma_device_info_set_released_once(e: &PnpEnumeration)
    requires
        e.wf(),
        e.is_done(),
    ensures
        e.opened_count() <= 1,
        e.destroyed_count() == e.opened_count(),
{
}

} // verus!

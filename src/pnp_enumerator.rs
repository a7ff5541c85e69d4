use crate::decode::{
    le_u16, string_from_utf16, utf16_text, GetDevicePropertyValueError, ERROR_INVALID_DATA,
};
use crate::enums::{EnumerateOption, EnumerateSpecifier};
use crate::errors::EnumerateError;
use crate::pnp_enumeration::PnpEnumeration;
use crate::property_value::PnpDevicePropertyValue;
use crate::uuid::{parse_uuid, Uuid};
use vstd::prelude::*;

verus! {

/// Native error codes that the enumeration treats as protocol, not failure.
pub const ERROR_INSUFFICIENT_BUFFER: u32 = 122;
pub const ERROR_NO_MORE_ITEMS: u32 = 259;

/// Flags for opening a device information set.
pub const DIGCF_PRESENT: u32 = 0x2;
pub const DIGCF_ALLCLASSES: u32 = 0x4;
pub const DIGCF_DEVICEINTERFACE: u32 = 0x10;

/// Legacy registry properties of a device.
pub const SPDRP_CLASSGUID: u32 = 8;
pub const SPDRP_BASE_CONTAINERID: u32 = 36;

/// Property groups of a device class.
pub const DICLASSPROP_INSTALLER: u32 = 1;
pub const DICLASSPROP_INTERFACE: u32 = 2;

/// Why the keys of a property group could not be listed.
#[derive(Debug, PartialEq, Eq, Structural)]
pub enum GetDevicePropertyKeysError {
    Win32Error(u32),
}

/// The outcome of asking for the size of a buffer that cannot be empty: the
/// call must fail, reporting an insufficient buffer.
pub open spec fn size_query_outcome(succeeded: bool, last_error: u32) -> Result<(), u32> {
    if succeeded {
        Err::<(), u32>(ERROR_INVALID_DATA)
    } else if last_error == ERROR_INSUFFICIENT_BUFFER {
        Ok(())
    } else {
        Err(last_error)
    }
}

/// The outcome of asking how many property keys there are: the call fails
/// reporting an insufficient buffer, or succeeds when there are none.
pub open spec fn keys_size_outcome(succeeded: bool, last_error: u32, count: u32) -> Result<
    (),
    GetDevicePropertyKeysError,
> {
    if !succeeded {
        if last_error == ERROR_INSUFFICIENT_BUFFER {
            Ok(())
        } else {
            Err(GetDevicePropertyKeysError::Win32Error(last_error))
        }
    } else if count > 0 {
        Err(GetDevicePropertyKeysError::Win32Error(ERROR_INVALID_DATA))
    } else {
        Ok(())
    }
}

/// The outcome of asking for the size of a property value: the call fails
/// reporting an insufficient buffer, or succeeds when the value is empty.
pub open spec fn value_size_outcome(succeeded: bool, last_error: u32, size: u32) -> Result<
    (),
    GetDevicePropertyValueError,
> {
    if !succeeded {
        if last_error == ERROR_INSUFFICIENT_BUFFER {
            Ok(())
        } else {
            Err(GetDevicePropertyValueError::Win32Error(last_error))
        }
    } else if size > 0 {
        Err(GetDevicePropertyValueError::Win32Error(ERROR_INVALID_DATA))
    } else {
        Ok(())
    }
}

/// Checks the outcome of asking for the size of a buffer that cannot be
/// empty.
pub fn check_required_size_query(succeeded: bool, last_error: u32) -> (r: Result<(), u32>)
    ensures
        r == size_query_outcome(succeeded, last_error),
{
    if succeeded {
        Err(ERROR_INVALID_DATA)
    } else if last_error == ERROR_INSUFFICIENT_BUFFER {
        Ok(())
    } else {
        Err(last_error)
    }
}

/// Checks the outcome of asking how many property keys there are: the call
/// fails reporting an insufficient buffer, or succeeds when there are none.
pub fn check_setup_di_get_xxx_property_keys_required_size_result(
    succeeded: bool,
    last_error: u32,
    required_property_key_count: u32,
) -> (r: Result<(), GetDevicePropertyKeysError>)
    ensures
        r == keys_size_outcome(succeeded, last_error, required_property_key_count),
{
    if !succeeded {
        if last_error == ERROR_INSUFFICIENT_BUFFER {
            Ok(())
        } else {
            Err(GetDevicePropertyKeysError::Win32Error(last_error))
        }
    } else if required_property_key_count > 0 {
        Err(GetDevicePropertyKeysError::Win32Error(ERROR_INVALID_DATA))
    } else {
        Ok(())
    }
}

/// Checks the outcome of asking for the size of a property value: the call
/// fails reporting an insufficient buffer, or succeeds when the value is
/// empty.
pub fn check_setup_di_get_device_xxx_property_required_size_result(
    succeeded: bool,
    last_error: u32,
    required_size: u32,
) -> (r: Result<(), GetDevicePropertyValueError>)
    ensures
        r == value_size_outcome(succeeded, last_error, required_size),
{
    if !succeeded {
        if last_error == ERROR_INSUFFICIENT_BUFFER {
            Ok(())
        } else {
            Err(GetDevicePropertyValueError::Win32Error(last_error))
        }
    } else if required_size > 0 {
        Err(GetDevicePropertyValueError::Win32Error(ERROR_INVALID_DATA))
    } else {
        Ok(())
    }
}

/// How a property failure is reported by an enumeration.
pub open spec fn enumerate_error_kind(e: GetDevicePropertyValueError) -> EnumerateError {
    match e {
        GetDevicePropertyValueError::StringListTerminationError => EnumerateError::StringTerminationDecodingError,
        GetDevicePropertyValueError::StringDecodingError(d) => EnumerateError::StringDecodingError(d),
        GetDevicePropertyValueError::StringTerminationError => EnumerateError::StringTerminationDecodingError,
        GetDevicePropertyValueError::Win32Error(c) => EnumerateError::Win32Error(c),
    }
}

pub fn enumerate_error_of(e: GetDevicePropertyValueError) -> (r: EnumerateError)
    ensures
        r == enumerate_error_kind(e),
{
    match e {
        GetDevicePropertyValueError::StringListTerminationError => EnumerateError::StringTerminationDecodingError,
        GetDevicePropertyValueError::StringDecodingError(d) => EnumerateError::StringDecodingError(d),
        GetDevicePropertyValueError::StringTerminationError => EnumerateError::StringTerminationDecodingError,
        GetDevicePropertyValueError::Win32Error(c) => EnumerateError::Win32Error(c),
    }
}

/// The device instance id held in the first `required_size` code units of
/// `units`, without its null terminator. An instance id cannot be empty.
pub fn device_instance_id_from_units(units: &Vec<u16>, required_size: u32) -> (r: Result<
    String,
    EnumerateError,
>)
    ensures
        required_size <= 1 || units@.len() < required_size ==> r == Err::<String, EnumerateError>(
            EnumerateError::Win32Error(ERROR_INVALID_DATA),
        ),
        !(required_size <= 1 || units@.len() < required_size) ==> match utf16_text(
            units@.subrange(0, required_size - 1),
        ) {
            Some(cs) => r is Ok && r->Ok_0@ == cs,
            None => r is Err && r->Err_0 is StringDecodingError,
        },
{
    let n = required_size as usize;
    if n <= 1 || units.len() < n {
        return Err(EnumerateError::Win32Error(ERROR_INVALID_DATA));
    }
    let mut text: Vec<u16> = Vec::new();
    let mut i: usize = 0;
    while i < n - 1
        invariant
            0 < n <= units@.len(),
            i <= n - 1,
            text@ =~= units@.subrange(0, i as int),
        decreases n - 1 - i,
    {
        text.push(units[i]);
        i = i + 1;
    }
    match string_from_utf16(&text) {
        Ok(s) => Ok(s),
        Err(e) => Err(EnumerateError::StringDecodingError(e)),
    }
}

/// The container id that base-container-id text names: `None` for the nil
/// id, which marks a device with no container, and for text that is not a
/// UUID.
pub open spec fn container_of_text(text: Seq<char>) -> Option<Uuid> {
    match parse_uuid(text) {
        Some(u) => if u.is_nil() {
            None
        } else {
            Some(u)
        },
        None => None,
    }
}

/// The container id that a base-container-id property holds; a value that
/// is not text is invalid data.
pub open spec fn container_id_of(value: PnpDevicePropertyValue) -> Result<
    Option<Uuid>,
    EnumerateError,
> {
    match value {
        PnpDevicePropertyValue::String(s) => Ok(container_of_text(s@)),
        _ => Err(EnumerateError::Win32Error(ERROR_INVALID_DATA)),
    }
}

pub fn base_container_id_from_value(value: &PnpDevicePropertyValue) -> (r: Result<
    Option<Uuid>,
    EnumerateError,
>)
    ensures
        r == container_id_of(*value),
{
    match value {
        PnpDevicePropertyValue::String(s) => match Uuid::from_str(s.as_str()) {
            Ok(u) => {
                if u.is_nil_uuid() {
                    Ok(None)
                } else {
                    Ok(Some(u))
                }
            },
            Err(_) => Ok(None),
        },
        _ => Err(EnumerateError::Win32Error(ERROR_INVALID_DATA)),
    }
}

/// The setup class that the registry names for a device, given what
/// reading its class-GUID property gave: a string that parses as a GUID, or
/// nothing.
pub open spec fn registry_class_guid(
    outcome: Result<PnpDevicePropertyValue, GetDevicePropertyValueError>,
) -> Option<Uuid> {
    match outcome {
        Ok(PnpDevicePropertyValue::String(s)) => parse_uuid(s@),
        _ => None,
    }
}

/// The setup class whose properties to read for a device. A failure to read
/// the class-GUID property is reported, except for invalid data, which is
/// how a root node without a class answers. A class that the caller
/// specified takes precedence over what the registry names.
pub open spec fn setup_class_guid_of(
    outcome: Result<PnpDevicePropertyValue, GetDevicePropertyValueError>,
    specified: Option<Uuid>,
) -> Result<Option<Uuid>, EnumerateError> {
    match outcome {
        Err(GetDevicePropertyValueError::Win32Error(c)) if c != ERROR_INVALID_DATA => Err(
            EnumerateError::Win32Error(c),
        ),
        Err(GetDevicePropertyValueError::StringDecodingError(d)) => Err(
            EnumerateError::StringDecodingError(d),
        ),
        Err(GetDevicePropertyValueError::StringTerminationError) => Err(
            EnumerateError::StringTerminationDecodingError,
        ),
        Err(GetDevicePropertyValueError::StringListTerminationError) => Err(
            EnumerateError::StringTerminationDecodingError,
        ),
        _ => Ok(
            match specified {
                Some(g) => Some(g),
                None => registry_class_guid(outcome),
            },
        ),
    }
}

pub fn device_setup_class_guid_from_outcome(
    outcome: Result<PnpDevicePropertyValue, GetDevicePropertyValueError>,
    specified: Option<Uuid>,
) -> (r: Result<Option<Uuid>, EnumerateError>)
    ensures
        r == setup_class_guid_of(outcome, specified),
{
    let ghost original = outcome;
    let from_registry: Option<Uuid> = match outcome {
        Ok(PnpDevicePropertyValue::String(s)) => match Uuid::from_str(s.as_str()) {
            Ok(u) => Some(u),
            Err(_) => None,
        },
        Ok(_) => None,
        Err(GetDevicePropertyValueError::Win32Error(c)) => {
            if c != ERROR_INVALID_DATA {
                return Err(EnumerateError::Win32Error(c));
            }
            None
        },
        Err(e) => {
            return Err(enumerate_error_of(e));
        },
    };
    assert(from_registry == registry_class_guid(original));
    match specified {
        Some(g) => Ok(Some(g)),
        None => Ok(from_registry),
    }
}

/// The size of the fixed part of an interface detail record, given the
/// width of a pointer in bytes: a 4-byte size field and a first path code
/// unit, padded to 8 bytes except on 32-bit targets.
pub fn device_interface_detail_header_size(pointer_width: usize) -> (r: u32)
    ensures
        r == (if pointer_width == 4 {
            6u32
        } else {
            8u32
        }),
{
    if pointer_width == 4 {
        6
    } else {
        8
    }
}

/// The path code units of an interface detail record of `required_size`
/// bytes: after the 4-byte size field, up to the null terminator.
pub open spec fn device_path_units(b: Seq<u8>, required_size: u32) -> Seq<u16> {
    Seq::new(
        ((required_size - 6) / 2) as nat,
        |i: int| le_u16(b[4 + 2 * i], b[5 + 2 * i]),
    )
}

/// The device path held in an interface detail record of `required_size`
/// bytes.
pub fn device_path_from_detail_buffer(buffer: &Vec<u8>, required_size: u32) -> (r: Result<
    String,
    EnumerateError,
>)
    ensures
        required_size < 6 || buffer@.len() < required_size ==> r == Err::<String, EnumerateError>(
            EnumerateError::Win32Error(ERROR_INVALID_DATA),
        ),
        !(required_size < 6 || buffer@.len() < required_size) ==> match utf16_text(
            device_path_units(buffer@, required_size),
        ) {
            Some(cs) => r is Ok && r->Ok_0@ == cs,
            None => r is Err && r->Err_0 is StringDecodingError,
        },
{
    if required_size < 6 || buffer.len() < required_size as usize {
        return Err(EnumerateError::Win32Error(ERROR_INVALID_DATA));
    }
    let n = ((required_size - 6) / 2) as usize;
    let mut path: Vec<u16> = Vec::new();
    let mut i: usize = 0;
    while i < n
        invariant
            n == (required_size - 6) / 2,
            6 <= required_size <= buffer@.len(),
            i <= n,
            path@ =~= device_path_units(buffer@, required_size).subrange(0, i as int),
        decreases n - i,
    {
        path.push((buffer[4 + 2 * i] as u16) | ((buffer[5 + 2 * i] as u16) << 8u16));
        i = i + 1;
    }
    assert(path@ =~= device_path_units(buffer@, required_size));
    match string_from_utf16(&path) {
        Ok(s) => Ok(s),
        Err(e) => Err(EnumerateError::StringDecodingError(e)),
    }
}

/// How a device information set is opened: the class filter, the
/// enumerator or instance id filter, the flags, and the interface class to
/// probe each device against.
#[derive(Debug)]
pub struct DeviceQuery {
    pub class_guid: Option<Uuid>,
    pub enumerator: Option<String>,
    pub flags: u32,
    pub interface_class_guid: Option<Uuid>,
}

/// The native query for each way of choosing devices; every query asks for
/// present devices only.
pub open spec fn device_query_of(specifier: EnumerateSpecifier) -> DeviceQuery {
    match specifier {
        EnumerateSpecifier::AllDevices => DeviceQuery {
            class_guid: None,
            enumerator: None,
            flags: DIGCF_PRESENT | DIGCF_ALLCLASSES,
            interface_class_guid: None,
        },
        EnumerateSpecifier::DeviceInterfaceClassGuid(g) => DeviceQuery {
            class_guid: Some(g),
            enumerator: None,
            flags: DIGCF_PRESENT | DIGCF_DEVICEINTERFACE,
            interface_class_guid: Some(g),
        },
        EnumerateSpecifier::DeviceSetupClassGuid(g) => DeviceQuery {
            class_guid: Some(g),
            enumerator: None,
            flags: DIGCF_PRESENT,
            interface_class_guid: None,
        },
        EnumerateSpecifier::PnpDeviceInstanceId(id, g) => DeviceQuery {
            class_guid: None,
            enumerator: Some(id),
            flags: DIGCF_PRESENT | DIGCF_DEVICEINTERFACE | DIGCF_ALLCLASSES,
            interface_class_guid: g,
        },
        EnumerateSpecifier::PnpEnumeratorId(id) => DeviceQuery {
            class_guid: None,
            enumerator: Some(id),
            flags: DIGCF_PRESENT | DIGCF_ALLCLASSES,
            interface_class_guid: None,
        },
    }
}

pub fn device_query(specifier: EnumerateSpecifier) -> (r: DeviceQuery)
    ensures
        r == device_query_of(specifier),
{
    match specifier {
        EnumerateSpecifier::AllDevices => DeviceQuery {
            class_guid: None,
            enumerator: None,
            flags: DIGCF_PRESENT | DIGCF_ALLCLASSES,
            interface_class_guid: None,
        },
        EnumerateSpecifier::DeviceInterfaceClassGuid(g) => DeviceQuery {
            class_guid: Some(g),
            enumerator: None,
            flags: DIGCF_PRESENT | DIGCF_DEVICEINTERFACE,
            interface_class_guid: Some(g),
        },
        EnumerateSpecifier::DeviceSetupClassGuid(g) => DeviceQuery {
            class_guid: Some(g),
            enumerator: None,
            flags: DIGCF_PRESENT,
            interface_class_guid: None,
        },
        EnumerateSpecifier::PnpDeviceInstanceId(id, g) => DeviceQuery {
            class_guid: None,
            enumerator: Some(id),
            flags: DIGCF_PRESENT | DIGCF_DEVICEINTERFACE | DIGCF_ALLCLASSES,
            interface_class_guid: g,
        },
        EnumerateSpecifier::PnpEnumeratorId(id) => DeviceQuery {
            class_guid: None,
            enumerator: Some(id),
            flags: DIGCF_PRESENT | DIGCF_ALLCLASSES,
            interface_class_guid: None,
        },
    }
}

/// Which property groups to include, as independent switches.
#[derive(Clone, Copy, Debug, PartialEq, Eq, Structural)]
pub struct EnumerateOptionSet {
    pub include_instance_properties: bool,
    pub include_device_interface_class_properties: bool,
    pub include_device_interface_properties: bool,
    pub include_setup_class_properties: bool,
}

pub open spec fn option_set_of(options: Seq<EnumerateOption>) -> EnumerateOptionSet {
    EnumerateOptionSet {
        include_instance_properties: options.contains(EnumerateOption::IncludeInstanceProperties),
        include_device_interface_class_properties: options.contains(
            EnumerateOption::IncludeDeviceInterfaceClassProperties,
        ),
        include_device_interface_properties: options.contains(
            EnumerateOption::IncludeDeviceInterfaceProperties,
        ),
        include_setup_class_properties: options.contains(
            EnumerateOption::IncludeSetupClassProperties,
        ),
    }
}

/// Option lists with the same members, in any order and with any
/// repetitions, switch on the same groups; a walk depends on the options
/// only through these switches.
pub proof fn lemma_option_order_irrelevant(a: Seq<EnumerateOption>, b: Seq<EnumerateOption>)
    requires
        forall|o: EnumerateOption| a.contains(o) <==> b.contains(o),
    ensures
        option_set_of(a) == option_set_of(b),
{
    assert(a.contains(EnumerateOption::IncludeInstanceProperties) == b.contains(
        EnumerateOption::IncludeInstanceProperties,
    ));
    assert(a.contains(EnumerateOption::IncludeDeviceInterfaceClassProperties) == b.contains(
        EnumerateOption::IncludeDeviceInterfaceClassProperties,
    ));
    assert(a.contains(EnumerateOption::IncludeDeviceInterfaceProperties) == b.contains(
        EnumerateOption::IncludeDeviceInterfaceProperties,
    ));
    assert(a.contains(EnumerateOption::IncludeSetupClassProperties) == b.contains(
        EnumerateOption::IncludeSetupClassProperties,
    ));
}

/// The switches that a list of options turns on, in any order and with
/// repetitions.
pub fn option_set(options: &Vec<EnumerateOption>) -> (r: EnumerateOptionSet)
    ensures
        r == option_set_of(options@),
{
    let mut r = EnumerateOptionSet {
        include_instance_properties: false,
        include_device_interface_class_properties: false,
        include_device_interface_properties: false,
        include_setup_class_properties: false,
    };
    let mut i: usize = 0;
    while i < options.len()
        invariant
            i <= options@.len(),
            r == option_set_of(options@.subrange(0, i as int)),
        decreases options@.len() - i,
    {
        let ghost before = options@.subrange(0, i as int);
        let ghost after = options@.subrange(0, i + 1);
        assert(after =~= before.push(options@[i as int]));
        assert(forall|o: EnumerateOption| #[trigger] after.contains(o) <==> (before.contains(o) || o == options@[i as int])) by {
            assert forall|o: EnumerateOption| #[trigger] after.contains(o) implies (before.contains(o) || o == options@[i as int]) by {
                if after.contains(o) {
                    let k = choose|k: int| 0 <= k < after.len() && after[k] == o;
                    if k < i {
                        assert(before[k] == o);
                    }
                }
            }
            assert forall|o: EnumerateOption| (before.contains(o) || o == options@[i as int]) implies #[trigger] after.contains(o) by {
                if before.contains(o) {
                    let k = choose|k: int| 0 <= k < before.len() && before[k] == o;
                    assert(after[k] == o);
                } else {
                    assert(after[i as int] == o);
                }
            }
        }
        match options[i] {
            EnumerateOption::IncludeInstanceProperties => {
                r.include_instance_properties = true;
            },
            EnumerateOption::IncludeDeviceInterfaceClassProperties => {
                r.include_device_interface_class_properties = true;
            },
            EnumerateOption::IncludeDeviceInterfaceProperties => {
                r.include_device_interface_properties = true;
            },
            EnumerateOption::IncludeSetupClassProperties => {
                r.include_setup_class_properties = true;
            },
        }
        i = i + 1;
    }
    assert(options@.subrange(0, i as int) =~= options@);
    r
}

/// Every property group switched on, as the convenience entry points use.
pub open spec fn all_groups() -> EnumerateOptionSet {
    EnumerateOptionSet {
        include_instance_properties: true,
        include_device_interface_class_properties: true,
        include_device_interface_properties: true,
        include_setup_class_properties: true,
    }
}

/// The setup class that a specifier names explicitly, if any.
pub open spec fn specified_setup_class_of(specifier: EnumerateSpecifier) -> Option<Uuid> {
    match specifier {
        EnumerateSpecifier::DeviceSetupClassGuid(g) => Some(g),
        _ => None,
    }
}

/// Entry points for enumerating present devices.
pub struct PnpEnumerator {}

impl PnpEnumerator {
    fn all_options() -> (r: Vec<EnumerateOption>)
        ensures
            option_set_of(r@) == all_groups(),
    {
        let r = vec![
            EnumerateOption::IncludeInstanceProperties,
            EnumerateOption::IncludeDeviceInterfaceProperties,
            EnumerateOption::IncludeSetupClassProperties,
            EnumerateOption::IncludeDeviceInterfaceClassProperties,
        ];
        assert(r@[0] == EnumerateOption::IncludeInstanceProperties);
        assert(r@[1] == EnumerateOption::IncludeDeviceInterfaceProperties);
        assert(r@[2] == EnumerateOption::IncludeSetupClassProperties);
        assert(r@[3] == EnumerateOption::IncludeDeviceInterfaceClassProperties);
        r
    }

    /// Starts an enumeration of the present devices that `enumerate_specifier`
    /// selects, with the property groups that `options` names.
    pub fn enumerate_present_devices_with_options(
        enumerate_specifier: EnumerateSpecifier,
        options: Vec<EnumerateOption>,
    ) -> (r: PnpEnumeration)
        ensures
            r.wf(),
            r.is_opening(),
            r.opened_count() == 0,
            r.destroyed_count() == 0,
            r.spec_query() == device_query_of(enumerate_specifier),
            r.spec_options() == option_set_of(options@),
            r.spec_specified_setup_class() == specified_setup_class_of(enumerate_specifier),
    {
        let specified = match &enumerate_specifier {
            EnumerateSpecifier::DeviceSetupClassGuid(g) => Some(*g),
            _ => None,
        };
        let groups = option_set(&options);
        PnpEnumeration::new(device_query(enumerate_specifier), groups, specified)
    }

    /// Starts an enumeration of all present devices, with every property
    /// group.
    pub fn enumerate_present_devices() -> (r: PnpEnumeration)
        ensures
            r.wf(),
            r.is_opening(),
            r.opened_count() == 0,
            r.destroyed_count() == 0,
            r.spec_query() == device_query_of(EnumerateSpecifier::AllDevices),
            r.spec_options() == all_groups(),
            r.spec_specified_setup_class() == None::<Uuid>,
    {
        PnpEnumerator::enumerate_present_devices_with_options(
            EnumerateSpecifier::AllDevices,
            PnpEnumerator::all_options(),
        )
    }

    /// Starts an enumeration of the present devices with an interface of the
    /// given class, with every property group.
    pub fn enumerate_present_devices_by_device_interface_class(
        device_interface_class_guid: Uuid,
    ) -> (r: PnpEnumeration)
        ensures
            r.wf(),
            r.is_opening(),
            r.opened_count() == 0,
            r.destroyed_count() == 0,
            r.spec_query() == device_query_of(
                EnumerateSpecifier::DeviceInterfaceClassGuid(device_interface_class_guid),
            ),
            r.spec_options() == all_groups(),
            r.spec_specified_setup_class() == None::<Uuid>,
    {
        PnpEnumerator::enumerate_present_devices_with_options(
            EnumerateSpecifier::DeviceInterfaceClassGuid(device_interface_class_guid),
            PnpEnumerator::all_options(),
        )
    }

    /// Starts an enumeration of the present devices of the given setup class,
    /// with every property group.
    pub fn enumerate_present_devices_by_device_setup_class(device_setup_class_guid: Uuid) -> (r:
        PnpEnumeration)
        ensures
            r.wf(),
            r.is_opening(),
            r.opened_count() == 0,
            r.destroyed_count() == 0,
            r.spec_query() == device_query_of(
                EnumerateSpecifier::DeviceSetupClassGuid(device_setup_class_guid),
            ),
            r.spec_options() == all_groups(),
            r.spec_specified_setup_class() == Some(device_setup_class_guid),
    {
        PnpEnumerator::enumerate_present_devices_with_options(
            EnumerateSpecifier::DeviceSetupClassGuid(device_setup_class_guid),
            PnpEnumerator::all_options(),
        )
    }

    /// Starts an enumeration of the present devices of the given enumerator
    /// (such as `USB`), with every property group.
    pub fn enumerate_present_devices_by_pnp_enumerator_id(pnp_enumerator_id: &str) -> (r:
        PnpEnumeration)
        ensures
            r.wf(),
            r.is_opening(),
            r.opened_count() == 0,
            r.destroyed_count() == 0,
            r.spec_query().class_guid == None::<Uuid>,
            r.spec_query().interface_class_guid == None::<Uuid>,
            r.spec_query().flags == DIGCF_PRESENT | DIGCF_ALLCLASSES,
            r.spec_query().enumerator is Some && r.spec_query().enumerator->0@ == pnp_enumerator_id@,
            r.spec_options() == all_groups(),
            r.spec_specified_setup_class() == None::<Uuid>,
    {
        PnpEnumerator::enumerate_present_devices_with_options(
            EnumerateSpecifier::PnpEnumeratorId(pnp_enumerator_id.to_string()),
            PnpEnumerator::all_options(),
        )
    }
}

} // verus!

use scalefs_windowspnp::enums::{EnumerateOption, EnumerateSpecifier};
use scalefs_windowspnp::errors::EnumerateError;
use scalefs_windowspnp::pnp_device_node_info::PnpDeviceNodeInfo;
use scalefs_windowspnp::pnp_enumeration::{NativeReply, NativeRequest, PnpEnumeration};
use scalefs_windowspnp::pnp_enumerator::PnpEnumerator;
use scalefs_windowspnp::property_key::PnpDevicePropertyKey;
use scalefs_windowspnp::property_map::PnpDevicePropertyMap;
use scalefs_windowspnp::property_value::PnpDevicePropertyValue;
use scalefs_windowspnp::uuid::Uuid;

struct FakeProperty {
    key: PnpDevicePropertyKey,
    data_type: u32,
    data: Vec<u8>,
}

struct FakeDevice {
    instance_id: String,
    container_id: String,
    properties: Vec<FakeProperty>,
    interface_path: Option<String>,
}

struct FakeDeviceSet {
    devices: Vec<FakeDevice>,
    class_properties: Vec<FakeProperty>,
    class_guid_error: u32,
    open_error: Option<u32>,
    enum_error_at: Option<(u32, u32)>,
    current: usize,
    opens: u32,
    destroys: u32,
    requests: Vec<String>,
}

fn utf16_units(text: &str) -> Vec<u16> {
    text.encode_utf16().chain(std::iter::once(0)).collect()
}

fn utf16_bytes(text: &str) -> Vec<u8> {
    utf16_units(text).iter().flat_map(|u| u.to_ne_bytes()).collect()
}

fn reply(succeeded: bool, last_error: u32) -> NativeReply {
    NativeReply {
        succeeded,
        last_error,
        required_size: 0,
        data_type: 0,
        data: Vec::new(),
        units: Vec::new(),
        keys: Vec::new(),
    }
}

fn size_reply(required_size: u32, data_type: u32) -> NativeReply {
    let mut r = reply(false, 122);
    r.required_size = required_size;
    r.data_type = data_type;
    r
}

fn data_reply(data_type: u32, data: Vec<u8>) -> NativeReply {
    let mut r = reply(true, 0);
    r.data_type = data_type;
    r.data = data;
    r
}

fn property_reply(properties: &[FakeProperty], key: &PnpDevicePropertyKey, buffer_len: u32) -> NativeReply {
    let p = properties.iter().find(|p| p.key == *key).expect("unknown key");
    if buffer_len == 0 {
        size_reply(p.data.len() as u32, p.data_type)
    } else {
        data_reply(p.data_type, p.data.clone())
    }
}

fn keys_reply(properties: &[FakeProperty], buffer_len: u32) -> NativeReply {
    if properties.is_empty() {
        return reply(true, 0);
    }
    if buffer_len == 0 {
        size_reply(properties.len() as u32, 0)
    } else {
        let mut r = reply(true, 0);
        r.keys = properties.iter().map(|p| p.key).collect();
        r
    }
}

impl FakeDeviceSet {
    fn new(devices: Vec<FakeDevice>) -> FakeDeviceSet {
        FakeDeviceSet {
            devices,
            class_properties: Vec::new(),
            class_guid_error: 13,
            open_error: None,
            enum_error_at: None,
            current: 0,
            opens: 0,
            destroys: 0,
            requests: Vec::new(),
        }
    }

    fn answer(&mut self, request: &NativeRequest) -> NativeReply {
        self.requests.push(format!("{:?}", request));
        match request {
            NativeRequest::OpenDeviceInfoSet { .. } => match self.open_error {
                Some(code) => reply(false, code),
                None => {
                    self.opens += 1;
                    reply(true, 0)
                }
            },
            NativeRequest::EnumDeviceInfo { device_index } => {
                if let Some((at, code)) = self.enum_error_at {
                    if at == *device_index {
                        return reply(false, code);
                    }
                }
                if (*device_index as usize) < self.devices.len() {
                    self.current = *device_index as usize;
                    reply(true, 0)
                } else {
                    reply(false, 259)
                }
            }
            NativeRequest::GetDeviceInstanceId { buffer_len } => {
                let units = utf16_units(&self.devices[self.current].instance_id);
                if *buffer_len == 0 {
                    size_reply(units.len() as u32, 0)
                } else {
                    let mut r = reply(true, 0);
                    r.units = units;
                    r
                }
            }
            NativeRequest::GetDeviceRegistryProperty { property, buffer_len } => {
                if *property == 8 {
                    return reply(false, self.class_guid_error);
                }
                let bytes = utf16_bytes(&self.devices[self.current].container_id);
                if *buffer_len == 0 {
                    size_reply(bytes.len() as u32, 1)
                } else {
                    data_reply(1, bytes)
                }
            }
            NativeRequest::GetDevicePropertyKeys { buffer_len } => {
                keys_reply(&self.devices[self.current].properties, *buffer_len)
            }
            NativeRequest::GetDeviceProperty { key, buffer_len } => {
                property_reply(&self.devices[self.current].properties, key, *buffer_len)
            }
            NativeRequest::GetClassPropertyKeys { buffer_len, .. } => keys_reply(&self.class_properties, *buffer_len),
            NativeRequest::GetClassProperty { key, buffer_len, .. } => {
                property_reply(&self.class_properties, key, *buffer_len)
            }
            NativeRequest::EnumDeviceInterface { device_index, .. } => {
                match self.devices.get(*device_index as usize).and_then(|d| d.interface_path.as_ref()) {
                    Some(_) => reply(true, 0),
                    None => reply(false, 259),
                }
            }
            NativeRequest::GetDeviceInterfaceDetail { buffer_len, cb_size } => {
                let path = self.devices[self.current].interface_path.clone().unwrap();
                let mut bytes = cb_size.to_ne_bytes().to_vec();
                bytes.extend(utf16_bytes(&path));
                if *buffer_len == 0 {
                    size_reply(bytes.len() as u32, 0)
                } else {
                    data_reply(0, bytes)
                }
            }
            NativeRequest::GetDeviceInterfacePropertyKeys { buffer_len } => keys_reply(&[], *buffer_len),
            NativeRequest::GetDeviceInterfaceProperty { .. } => panic!("no interface properties"),
            NativeRequest::DestroyDeviceInfoSet => {
                self.destroys += 1;
                reply(true, 0)
            }
            NativeRequest::Finished => panic!("nothing to answer"),
        }
    }
}

fn run(mut enumeration: PnpEnumeration, set: &mut FakeDeviceSet) -> Result<Vec<PnpDeviceNodeInfo>, EnumerateError> {
    loop {
        let request = enumeration.request();
        if let NativeRequest::Finished = request {
            break;
        }
        let answer = set.answer(&request);
        enumeration.resume(answer);
    }
    assert!(enumeration.is_finished());
    enumeration.into_result()
}

fn format_id_x() -> Uuid {
    Uuid::from_u128(0x104e_a319_6ee2_4701_bd47_8ddb_f425_bbe5)
}

fn root_system_device() -> FakeDevice {
    FakeDevice {
        instance_id: "ROOT\\SYSTEM\\0000".to_string(),
        container_id: "00000000-0000-0000-0000-000000000000".to_string(),
        properties: vec![FakeProperty {
            key: PnpDevicePropertyKey { fmtid: format_id_x(), pid: 1 },
            data_type: 7,
            data: 5u32.to_ne_bytes().to_vec(),
        }],
        interface_path: None,
    }
}

#[test]
fn one_device_with_one_instance_property() {
    let mut set = FakeDeviceSet::new(vec![root_system_device()]);
    let e = PnpEnumerator::enumerate_present_devices_with_options(
        EnumerateSpecifier::AllDevices,
        vec![EnumerateOption::IncludeInstanceProperties],
    );
    let devices = run(e, &mut set).unwrap();
    let mut expected = PnpDevicePropertyMap::new();
    expected.insert(PnpDevicePropertyKey { fmtid: format_id_x(), pid: 1 }, PnpDevicePropertyValue::UInt32(5));
    assert_eq!(
        devices,
        vec![PnpDeviceNodeInfo {
            device_instance_id: "ROOT\\SYSTEM\\0000".to_string(),
            base_container_id: None,
            device_instance_properties: Some(expected),
            device_setup_class_properties: None,
            device_path: None,
            device_interface_properties: None,
            device_interface_class_properties: None,
        }]
    );
    assert_eq!((set.opens, set.destroys), (1, 1));
}

#[test]
fn container_id_is_kept_when_not_nil() {
    let mut device = root_system_device();
    device.container_id = "{00112233-4455-6677-8899-aabbccddeeff}".to_string();
    let mut set = FakeDeviceSet::new(vec![device]);
    let e = PnpEnumerator::enumerate_present_devices_with_options(EnumerateSpecifier::AllDevices, vec![]);
    let devices = run(e, &mut set).unwrap();
    assert_eq!(devices[0].base_container_id, Some(Uuid::from_u128(0x0011_2233_4455_6677_8899_aabb_ccdd_eeff)));
    assert_eq!(devices[0].device_instance_properties, None);
}

#[test]
fn unparsable_container_id_gives_no_container() {
    let mut device = root_system_device();
    device.container_id = "not a guid".to_string();
    let mut set = FakeDeviceSet::new(vec![device]);
    let devices = run(PnpEnumerator::enumerate_present_devices(), &mut set).unwrap();
    assert_eq!(devices[0].base_container_id, None);
    assert_eq!((set.opens, set.destroys), (1, 1));
}

#[test]
fn empty_instance_id_is_invalid_data() {
    let mut device = root_system_device();
    device.instance_id = String::new();
    let mut set = FakeDeviceSet::new(vec![device]);
    let r = run(PnpEnumerator::enumerate_present_devices(), &mut set);
    assert!(matches!(r, Err(EnumerateError::Win32Error(13))));
    assert_eq!((set.opens, set.destroys), (1, 1));
}

#[test]
fn devices_come_back_in_index_order() {
    let mut first = root_system_device();
    first.instance_id = "ROOT\\A\\0".to_string();
    let mut second = root_system_device();
    second.instance_id = "ROOT\\B\\1".to_string();
    let mut set = FakeDeviceSet::new(vec![first, second]);
    let devices = run(PnpEnumerator::enumerate_present_devices(), &mut set).unwrap();
    let ids: Vec<&str> = devices.iter().map(|d| d.device_instance_id.as_str()).collect();
    assert_eq!(ids, vec!["ROOT\\A\\0", "ROOT\\B\\1"]);
}

#[test]
fn set_is_released_once_after_success() {
    let mut set = FakeDeviceSet::new(vec![root_system_device(), root_system_device()]);
    let devices = run(PnpEnumerator::enumerate_present_devices(), &mut set).unwrap();
    assert_eq!(devices.len(), 2);
    assert_eq!((set.opens, set.destroys), (1, 1));
}

#[test]
fn set_is_released_once_after_an_enumeration_error() {
    let mut set = FakeDeviceSet::new(vec![root_system_device(), root_system_device()]);
    set.enum_error_at = Some((1, 5));
    let r = run(PnpEnumerator::enumerate_present_devices(), &mut set);
    assert!(matches!(r, Err(EnumerateError::Win32Error(5))));
    assert_eq!((set.opens, set.destroys), (1, 1));
}

#[test]
fn set_is_released_once_after_a_decode_error() {
    let mut device = root_system_device();
    device.properties[0].data_type = 18;
    device.properties[0].data = vec![0x41, 0x00];
    let mut set = FakeDeviceSet::new(vec![device]);
    let r = run(PnpEnumerator::enumerate_present_devices(), &mut set);
    assert!(matches!(r, Err(EnumerateError::StringTerminationDecodingError)));
    assert_eq!((set.opens, set.destroys), (1, 1));
}

#[test]
fn set_that_fails_to_open_is_not_released() {
    let mut set = FakeDeviceSet::new(vec![root_system_device()]);
    set.open_error = Some(87);
    let r = run(PnpEnumerator::enumerate_present_devices(), &mut set);
    assert!(matches!(r, Err(EnumerateError::Win32Error(87))));
    assert_eq!((set.opens, set.destroys), (0, 0));
}

#[test]
fn empty_set_gives_no_devices() {
    let mut set = FakeDeviceSet::new(vec![]);
    let devices = run(PnpEnumerator::enumerate_present_devices(), &mut set).unwrap();
    assert!(devices.is_empty());
    assert_eq!((set.opens, set.destroys), (1, 1));
}

#[test]
fn class_guid_failure_other_than_invalid_data_is_reported() {
    let mut set = FakeDeviceSet::new(vec![root_system_device()]);
    set.class_guid_error = 5;
    let r = run(PnpEnumerator::enumerate_present_devices(), &mut set);
    assert!(matches!(r, Err(EnumerateError::Win32Error(5))));
    assert_eq!((set.opens, set.destroys), (1, 1));
}

#[test]
fn specified_setup_class_is_used_for_class_properties() {
    let class = Uuid::from_u128(0x4d36_e97d_e325_11ce_bfc1_0800_2be1_0318);
    let mut set = FakeDeviceSet::new(vec![root_system_device()]);
    set.class_properties = vec![FakeProperty {
        key: PnpDevicePropertyKey { fmtid: format_id_x(), pid: 7 },
        data_type: 3,
        data: vec![9],
    }];
    let devices = run(PnpEnumerator::enumerate_present_devices_by_device_setup_class(class), &mut set).unwrap();
    let setup = devices[0].device_setup_class_properties.as_ref().unwrap();
    assert_eq!(
        setup.get(&PnpDevicePropertyKey { fmtid: format_id_x(), pid: 7 }),
        Some(&PnpDevicePropertyValue::Byte(9))
    );
    assert!(set.requests.iter().any(|r| r.starts_with("GetClassPropertyKeys") && r.contains("flags: 1")));
    assert_eq!(devices[0].device_path, None);
}

#[test]
fn interface_devices_get_their_path() {
    let interface_class = Uuid::from_u128(0x4d1e_55b2_f16f_11cf_88cb_0011_1100_0030);
    let mut device = root_system_device();
    device.interface_path = Some("\\\\?\\hid#vid_1234".to_string());
    let mut set = FakeDeviceSet::new(vec![device]);
    let e = PnpEnumerator::enumerate_present_devices_by_device_interface_class(interface_class);
    let devices = run(e, &mut set).unwrap();
    assert_eq!(devices[0].device_path.as_deref(), Some("\\\\?\\hid#vid_1234"));
    assert_eq!(devices[0].device_interface_properties, Some(PnpDevicePropertyMap::new()));
    assert_eq!(devices[0].device_interface_class_properties, Some(PnpDevicePropertyMap::new()));
}

#[test]
fn enumerator_id_query_opens_all_classes() {
    let e = PnpEnumerator::enumerate_present_devices_by_pnp_enumerator_id("USB");
    match e.request() {
        NativeRequest::OpenDeviceInfoSet { class_guid, enumerator, flags } => {
            assert_eq!(class_guid, None);
            assert_eq!(enumerator.as_deref(), Some("USB"));
            assert_eq!(flags, 0x2 | 0x4);
        }
        other => panic!("unexpected request {:?}", other),
    }
}

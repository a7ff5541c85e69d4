use scalefs_windowspnp::decode::{
    calculate_mask_to_fit_value, convert_property_buffer_into_device_property_value,
    convert_registry_buffer_into_device_property_value, GetDevicePropertyValueError,
};
use scalefs_windowspnp::property_value::PnpDevicePropertyValue;
use scalefs_windowspnp::uuid::Uuid;

const BYTE: u32 = 3;
const UINT16: u32 = 5;
const UINT32: u32 = 7;
const GUID: u32 = 13;
const BOOLEAN: u32 = 17;
const STRING: u32 = 18;
const SECURITY_DESCRIPTOR_STRING: u32 = 20;
const ARRAY: u32 = 0x1000;
const LIST: u32 = 0x2000;

fn utf16_bytes(text: &str) -> Vec<u8> {
    text.encode_utf16().flat_map(|u| u.to_ne_bytes()).collect()
}

fn text_of(v: &PnpDevicePropertyValue) -> String {
    match v {
        PnpDevicePropertyValue::String(s) => s.clone(),
        other => panic!("not a string: {:?}", other),
    }
}

#[test]
fn uint32_array_decodes_each_chunk() {
    let mut buffer = Vec::new();
    for n in [1u32, 0xdead_beef, 70000] {
        buffer.extend_from_slice(&n.to_ne_bytes());
    }
    let r = convert_property_buffer_into_device_property_value(buffer, UINT32 | ARRAY);
    assert_eq!(
        r.unwrap(),
        PnpDevicePropertyValue::ArrayOfValues(vec![
            PnpDevicePropertyValue::UInt32(1),
            PnpDevicePropertyValue::UInt32(0xdead_beef),
            PnpDevicePropertyValue::UInt32(70000),
        ])
    );
}

#[test]
fn uint32_array_of_ragged_length_is_invalid_data() {
    let r = convert_property_buffer_into_device_property_value(vec![0u8; 10], UINT32 | ARRAY);
    assert!(matches!(r, Err(GetDevicePropertyValueError::Win32Error(13))));
}

#[test]
fn empty_array_decodes_to_no_elements() {
    let r = convert_property_buffer_into_device_property_value(vec![], UINT16 | ARRAY);
    assert_eq!(r.unwrap(), PnpDevicePropertyValue::ArrayOfValues(vec![]));
}

#[test]
fn string_list_decodes_each_string() {
    let r = convert_property_buffer_into_device_property_value(utf16_bytes("A\0B\0\0"), STRING | LIST);
    match r.unwrap() {
        PnpDevicePropertyValue::ListOfValues(items) => {
            assert_eq!(items.len(), 2);
            assert_eq!(text_of(&items[0]), "A");
            assert_eq!(text_of(&items[1]), "B");
        }
        other => panic!("not a list: {:?}", other),
    }
}

#[test]
fn string_list_not_ending_in_null_is_rejected() {
    let r = convert_property_buffer_into_device_property_value(utf16_bytes("A\0B"), STRING | LIST);
    assert!(matches!(r, Err(GetDevicePropertyValueError::StringListTerminationError)));
}

#[test]
fn string_list_missing_one_null_has_an_unterminated_last_string() {
    let r = convert_property_buffer_into_device_property_value(utf16_bytes("A\0B\0"), STRING | LIST);
    assert!(matches!(r, Err(GetDevicePropertyValueError::StringTerminationError)));
}

#[test]
fn empty_string_list_decodes_to_no_strings() {
    let r = convert_property_buffer_into_device_property_value(utf16_bytes("\0"), STRING | LIST);
    assert_eq!(r.unwrap(), PnpDevicePropertyValue::ListOfValues(vec![]));
}

#[test]
fn string_decodes_without_terminator() {
    let r = convert_property_buffer_into_device_property_value(utf16_bytes("hello\0"), STRING);
    assert_eq!(text_of(&r.unwrap()), "hello");
}

#[test]
fn string_without_terminator_is_rejected() {
    let r = convert_property_buffer_into_device_property_value(utf16_bytes("hello"), STRING);
    assert!(matches!(r, Err(GetDevicePropertyValueError::StringTerminationError)));
}

#[test]
fn string_of_odd_length_or_empty_is_invalid_data() {
    let r = convert_property_buffer_into_device_property_value(vec![0x41, 0, 0], STRING);
    assert!(matches!(r, Err(GetDevicePropertyValueError::Win32Error(13))));
    let r = convert_property_buffer_into_device_property_value(vec![], STRING);
    assert!(matches!(r, Err(GetDevicePropertyValueError::Win32Error(13))));
}

#[test]
fn unpaired_surrogate_is_a_decoding_error() {
    let mut buffer = Vec::new();
    for u in [0xd800u16, 0] {
        buffer.extend_from_slice(&u.to_ne_bytes());
    }
    let r = convert_property_buffer_into_device_property_value(buffer, STRING);
    assert!(matches!(r, Err(GetDevicePropertyValueError::StringDecodingError(_))));
}

#[test]
fn non_ascii_text_decodes() {
    let r = convert_property_buffer_into_device_property_value(utf16_bytes("Microsoft\u{ae} 2.4GHz\0"), STRING);
    assert_eq!(text_of(&r.unwrap()), "Microsoft\u{ae} 2.4GHz");
}

#[test]
fn scalars_decode_from_exact_sizes() {
    assert_eq!(
        convert_property_buffer_into_device_property_value(vec![42], BYTE).unwrap(),
        PnpDevicePropertyValue::Byte(42)
    );
    assert_eq!(
        convert_property_buffer_into_device_property_value(vec![0xff], BOOLEAN).unwrap(),
        PnpDevicePropertyValue::Boolean(true)
    );
    assert_eq!(
        convert_property_buffer_into_device_property_value(vec![0], BOOLEAN).unwrap(),
        PnpDevicePropertyValue::Boolean(false)
    );
    assert_eq!(
        convert_property_buffer_into_device_property_value(0x1234u16.to_ne_bytes().to_vec(), UINT16).unwrap(),
        PnpDevicePropertyValue::UInt16(0x1234)
    );
    assert!(matches!(
        convert_property_buffer_into_device_property_value(vec![1, 2], BYTE),
        Err(GetDevicePropertyValueError::Win32Error(13))
    ));
}

#[test]
fn guid_decodes_from_its_memory_layout() {
    let mut buffer = Vec::new();
    buffer.extend_from_slice(&0x104e_a319u32.to_ne_bytes());
    buffer.extend_from_slice(&0x6ee2u16.to_ne_bytes());
    buffer.extend_from_slice(&0x4701u16.to_ne_bytes());
    buffer.extend_from_slice(&[0xbd, 0x47, 0x8d, 0xdb, 0xf4, 0x25, 0xbb, 0xe5]);
    assert_eq!(
        convert_property_buffer_into_device_property_value(buffer, GUID).unwrap(),
        PnpDevicePropertyValue::Guid(Uuid::from_u128(0x104e_a319_6ee2_4701_bd47_8ddb_f425_bbe5))
    );
}

#[test]
fn unknown_types_and_misplaced_modifiers_are_unsupported() {
    for t in [25u32, 0, STRING | ARRAY, UINT32 | LIST, SECURITY_DESCRIPTOR_STRING, SECURITY_DESCRIPTOR_STRING | LIST, UINT32 | ARRAY | LIST] {
        assert_eq!(
            convert_property_buffer_into_device_property_value(vec![1, 2, 3, 4], t).unwrap(),
            PnpDevicePropertyValue::UnsupportedPropertyDataType(t)
        );
    }
}

#[test]
fn registry_types_map_onto_property_types() {
    assert_eq!(
        convert_registry_buffer_into_device_property_value(9u32.to_ne_bytes().to_vec(), 4).unwrap(),
        PnpDevicePropertyValue::UInt32(9)
    );
    assert_eq!(text_of(&convert_registry_buffer_into_device_property_value(utf16_bytes("x\0"), 1).unwrap()), "x");
    match convert_registry_buffer_into_device_property_value(utf16_bytes("x\0y\0\0"), 7).unwrap() {
        PnpDevicePropertyValue::ListOfValues(items) => assert_eq!(items.len(), 2),
        other => panic!("not a list: {:?}", other),
    }
    assert_eq!(
        convert_registry_buffer_into_device_property_value(vec![1, 2], 3).unwrap(),
        PnpDevicePropertyValue::UnsupportedRegistryDataType(3)
    );
}

#[test]
fn type_masks_cover_the_largest_codes() {
    assert_eq!(calculate_mask_to_fit_value(25), 0x1f);
    assert_eq!(calculate_mask_to_fit_value(0x2000), 0x3fff);
    assert_eq!(calculate_mask_to_fit_value(1), 1);
    assert_eq!(calculate_mask_to_fit_value(32), 63);
    assert_eq!(calculate_mask_to_fit_value(u32::MAX), u32::MAX);
}

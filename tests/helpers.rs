use scalefs_windowspnp::errors::EnumerateError;
use scalefs_windowspnp::pnp_enumerator::{
    check_required_size_query, check_setup_di_get_device_xxx_property_required_size_result,
    check_setup_di_get_xxx_property_keys_required_size_result, device_instance_id_from_units,
    device_interface_detail_header_size, device_path_from_detail_buffer, GetDevicePropertyKeysError,
};
use scalefs_windowspnp::decode::GetDevicePropertyValueError;

#[test]
fn size_query_must_report_insufficient_buffer() {
    assert_eq!(check_required_size_query(false, 122), Ok(()));
    assert_eq!(check_required_size_query(false, 5), Err(5));
    assert_eq!(check_required_size_query(true, 0), Err(13));
}

#[test]
fn key_count_query_may_succeed_only_when_empty() {
    assert_eq!(check_setup_di_get_xxx_property_keys_required_size_result(false, 122, 3), Ok(()));
    assert_eq!(check_setup_di_get_xxx_property_keys_required_size_result(true, 0, 0), Ok(()));
    assert_eq!(
        check_setup_di_get_xxx_property_keys_required_size_result(true, 0, 2),
        Err(GetDevicePropertyKeysError::Win32Error(13))
    );
    assert_eq!(
        check_setup_di_get_xxx_property_keys_required_size_result(false, 1168, 0),
        Err(GetDevicePropertyKeysError::Win32Error(1168))
    );
}

#[test]
fn value_size_query_may_succeed_only_when_empty() {
    assert!(matches!(check_setup_di_get_device_xxx_property_required_size_result(false, 122, 8), Ok(())));
    assert!(matches!(check_setup_di_get_device_xxx_property_required_size_result(true, 0, 0), Ok(())));
    assert!(matches!(
        check_setup_di_get_device_xxx_property_required_size_result(true, 0, 8),
        Err(GetDevicePropertyValueError::Win32Error(13))
    ));
    assert!(matches!(
        check_setup_di_get_device_xxx_property_required_size_result(false, 13, 0),
        Err(GetDevicePropertyValueError::Win32Error(13))
    ));
}

#[test]
fn instance_id_drops_its_terminator() {
    let units: Vec<u16> = "PCI\\VEN_8086\0".encode_utf16().collect();
    let id = device_instance_id_from_units(&units, units.len() as u32).unwrap();
    assert_eq!(id, "PCI\\VEN_8086");
    assert!(matches!(device_instance_id_from_units(&units, 99), Err(EnumerateError::Win32Error(13))));
    assert!(matches!(device_instance_id_from_units(&vec![0], 1), Err(EnumerateError::Win32Error(13))));
    assert!(matches!(device_instance_id_from_units(&vec![0xdc00, 0], 2), Err(EnumerateError::StringDecodingError(_))));
}

#[test]
fn detail_header_size_depends_on_pointer_width() {
    assert_eq!(device_interface_detail_header_size(4), 6);
    assert_eq!(device_interface_detail_header_size(8), 8);
}

#[test]
fn device_path_follows_the_size_field() {
    let mut buffer = 8u32.to_ne_bytes().to_vec();
    for u in "\\\\?\\usb#1\0".encode_utf16() {
        buffer.extend_from_slice(&u.to_ne_bytes());
    }
    let size = buffer.len() as u32;
    assert_eq!(device_path_from_detail_buffer(&buffer, size).unwrap(), "\\\\?\\usb#1");
    assert!(matches!(device_path_from_detail_buffer(&buffer, 5), Err(EnumerateError::Win32Error(13))));
    assert!(matches!(device_path_from_detail_buffer(&buffer, size + 2), Err(EnumerateError::Win32Error(13))));
}

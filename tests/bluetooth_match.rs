use scalefs_windowspnp::bluetooth::{
    bluetooth_battery_key, contains_text, device_friendly_name_key, find_pnp_battery, get_pnp_bt_devices_info,
};
use scalefs_windowspnp::pnp_device_node_info::PnpDeviceNodeInfo;
use scalefs_windowspnp::property_key::PnpDevicePropertyKey;
use scalefs_windowspnp::property_map::PnpDevicePropertyMap;
use scalefs_windowspnp::property_value::PnpDevicePropertyValue;
use scalefs_windowspnp::uuid::Uuid;

fn node(id: &str, properties: Option<PnpDevicePropertyMap>) -> PnpDeviceNodeInfo {
    PnpDeviceNodeInfo {
        device_instance_id: id.to_string(),
        base_container_id: None,
        device_instance_properties: properties,
        device_setup_class_properties: None,
        device_path: None,
        device_interface_properties: None,
        device_interface_class_properties: None,
    }
}

fn other_key() -> PnpDevicePropertyKey {
    PnpDevicePropertyKey { fmtid: Uuid::from_u128(1), pid: 3 }
}

#[test]
fn substring_search() {
    assert!(contains_text("HUAWEI FreeBuds Pro Hands-Free AG", "HUAWEI FreeBuds Pro"));
    assert!(contains_text("abc", ""));
    assert!(!contains_text("ab", "abc"));
    assert!(!contains_text("BTHENUM", "BTHENUM\\"));
}

#[test]
fn well_known_keys() {
    assert_eq!(
        device_friendly_name_key(),
        PnpDevicePropertyKey { fmtid: "a45c254e-df1c-4efd-8020-67d146a850e0".parse().unwrap(), pid: 14 }
    );
    assert_eq!(
        bluetooth_battery_key(),
        PnpDevicePropertyKey { fmtid: Uuid::from_u128(0x104EA319_6EE2_4701_BD47_8DDBF425BBE5), pid: 2 }
    );
}

#[test]
fn bluetooth_nodes_give_name_and_battery() {
    let mut m = PnpDevicePropertyMap::new();
    m.insert(device_friendly_name_key(), PnpDevicePropertyValue::String("Buds Hands-Free AG".to_string()));
    m.insert(bluetooth_battery_key(), PnpDevicePropertyValue::Byte(80));
    m.insert(other_key(), PnpDevicePropertyValue::UInt32(1));
    let mut incomplete = PnpDevicePropertyMap::new();
    incomplete.insert(device_friendly_name_key(), PnpDevicePropertyValue::String("Pen".to_string()));
    incomplete.insert(other_key(), PnpDevicePropertyValue::UInt32(1));
    let mut not_bluetooth = PnpDevicePropertyMap::new();
    not_bluetooth.insert(device_friendly_name_key(), PnpDevicePropertyValue::String("Disk".to_string()));
    not_bluetooth.insert(bluetooth_battery_key(), PnpDevicePropertyValue::Byte(5));
    not_bluetooth.insert(other_key(), PnpDevicePropertyValue::UInt32(1));
    let nodes = vec![
        node("BTHENUM\\{0000111e}_VID&0001", Some(m)),
        node("BTHENUM\\{0000111f}", Some(incomplete)),
        node("USB\\VID_1234", Some(not_bluetooth)),
        node("BTHENUM\\{00001124}", None),
    ];
    assert_eq!(get_pnp_bt_devices_info(&nodes), vec![("Buds Hands-Free AG".to_string(), 80)]);
}

#[test]
fn battery_found_by_name_prefix() {
    let pnp = vec![("Pen Stylus".to_string(), 40), ("Buds Hands-Free AG".to_string(), 80), ("Buds Audio".to_string(), 75)];
    assert_eq!(find_pnp_battery(&pnp, "Buds"), Some(80));
    assert_eq!(find_pnp_battery(&pnp, "Mouse"), None);
}

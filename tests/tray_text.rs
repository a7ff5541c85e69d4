use scalefs_windowspnp::tray_info::{convert_tray_info, BluetoothInfo};

fn info(name: &str, battery: u8, status: bool) -> BluetoothInfo {
    BluetoothInfo { name: name.to_string(), battery, status }
}

#[test]
fn connected_devices_come_first() {
    let (tooltip, menu) = convert_tray_info(vec![
        info("Mouse", 7, false),
        info("Buds", 100, true),
        info("Pen", 0, true),
    ]);
    assert_eq!(tooltip, vec!["\u{1f7e2} Pen - 0%", "\u{1f7e2} Buds - 100%", "\u{1f534} Mouse - 7%"]);
    assert_eq!(menu, vec!["\u{1f517} Pen - 0%", "\u{1f517} Buds - 100%", "     Mouse - 7%"]);
}

#[test]
fn no_devices_give_no_lines() {
    let (tooltip, menu) = convert_tray_info(vec![]);
    assert!(tooltip.is_empty() && menu.is_empty());
}

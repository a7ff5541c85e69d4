use crate::uuid::push_char;
use vstd::prelude::*;

verus! {

/// What the tray shows for one paired Bluetooth device.
#[derive(Debug, PartialEq, Eq)]
pub struct BluetoothInfo {
    pub name: String,
    /// Battery level in percent.
    pub battery: u8,
    /// Whether the device is connected.
    pub status: bool,
}

pub open spec fn decimal_digit(d: nat) -> char {
    seq!['0', '1', '2', '3', '4', '5', '6', '7', '8', '9'][d as int]
}

/// The decimal digits of `n`, without leading zeros.
pub open spec fn decimal(n: nat) -> Seq<char>
    decreases n,
{
    if n < 10 {
        seq![decimal_digit(n)]
    } else {
        decimal(n / 10).push(decimal_digit(n % 10))
    }
}

/// One line for a device: a marker, the name, and the battery level.
pub open spec fn tray_line(marker: Seq<char>, info: BluetoothInfo) -> Seq<char> {
    marker + info.name@ + " - "@ + decimal(info.battery as nat) + "%"@
}

/// The tooltip lines and the menu lines for a list of devices: connected
/// devices go on top, the last one seen first; the others follow in the
/// order seen.
pub open spec fn tray_lines(infos: Seq<BluetoothInfo>) -> (Seq<Seq<char>>, Seq<Seq<char>>)
    decreases infos.len(),
{
    if infos.len() == 0 {
        (seq![], seq![])
    } else {
        let (tooltip, menu) = tray_lines(infos.drop_last());
        let info = infos.last();
        if info.status {
            (
                seq![tray_line("\u{1f7e2} "@, info)] + tooltip,
                seq![tray_line("\u{1f517} "@, info)] + menu,
            )
        } else {
            (tooltip.push(tray_line("\u{1f534} "@, info)), menu.push(tray_line("     "@, info)))
        }
    }
}

fn push_decimal(out: &mut String, n: u8)
    ensures
        final(out)@ == old(out)@ + decimal(n as nat),
    decreases n,
{
    if n >= 10 {
        push_decimal(out, n / 10);
    }
    let digits: [char; 10] = ['0', '1', '2', '3', '4', '5', '6', '7', '8', '9'];
    assert(digits@ =~= seq!['0', '1', '2', '3', '4', '5', '6', '7', '8', '9']);
    push_char(out, digits[(n % 10) as usize]);
    assert(final(out)@ =~= old(out)@ + decimal(n as nat));
}

fn line(marker: &str, info: &BluetoothInfo) -> (r: String)
    ensures
        r@ == tray_line(marker@, *info),
{
    let mut out = String::new();
    out.append(marker);
    out.append(info.name.as_str());
    out.append(" - ");
    push_decimal(&mut out, info.battery);
    out.append("%");
    assert(out@ =~= tray_line(marker@, *info));
    out
}

/// The tooltip lines and the menu lines that the tray shows for the devices.
pub fn convert_tray_info(bluetooth_devices_info: Vec<BluetoothInfo>) -> (r: (Vec<String>, Vec<String>))
    ensures
        r.0@.len() == tray_lines(bluetooth_devices_info@).0.len(),
        r.1@.len() == tray_lines(bluetooth_devices_info@).1.len(),
        forall|i: int| 0 <= i < r.0@.len() ==> #[trigger] r.0@[i]@ == tray_lines(bluetooth_devices_info@).0[i],
        forall|i: int| 0 <= i < r.1@.len() ==> #[trigger] r.1@[i]@ == tray_lines(bluetooth_devices_info@).1[i],
{
    let infos = &bluetooth_devices_info;
    let mut tray_tooltip_result: Vec<String> = Vec::new();
    let mut menu_items_result: Vec<String> = Vec::new();
    let mut k: usize = 0;
    while k < infos.len()
        invariant
            k <= infos@.len(),
            tray_tooltip_result@.len() == tray_lines(infos@.subrange(0, k as int)).0.len(),
            menu_items_result@.len() == tray_lines(infos@.subrange(0, k as int)).1.len(),
            forall|i: int|
                0 <= i < tray_tooltip_result@.len() ==> #[trigger] tray_tooltip_result@[i]@
                    == tray_lines(infos@.subrange(0, k as int)).0[i],
            forall|i: int|
                0 <= i < menu_items_result@.len() ==> #[trigger] menu_items_result@[i]@
                    == tray_lines(infos@.subrange(0, k as int)).1[i],
        decreases infos@.len() - k,
    {
        let ghost before = infos@.subrange(0, k as int);
        assert(infos@.subrange(0, k + 1).drop_last() =~= before);
        let info = &infos[k];
        if info.status {
            tray_tooltip_result.insert(0, line("\u{1f7e2} ", info));
            menu_items_result.insert(0, line("\u{1f517} ", info));
        } else {
            tray_tooltip_result.push(line("\u{1f534} ", info));
            menu_items_result.push(line("     ", info));
        }
        k = k + 1;
    }
    assert(infos@.subrange(0, k as int) =~= infos@);
    (tray_tooltip_result, menu_items_result)
}

} // verus!

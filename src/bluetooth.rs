use crate::pnp_device_node_info::PnpDeviceNodeInfo;
use crate::property_key::PnpDevicePropertyKey;
use crate::property_value::PnpDevicePropertyValue;
use crate::uuid::Uuid;
use vstd::prelude::*;

verus! {

/// `needle` occurs in `haystack` as a run of consecutive characters.
pub open spec fn is_substring(needle: Seq<char>, haystack: Seq<char>) -> bool {
    exists|i: int|
        0 <= i && i + needle.len() <= haystack.len() && #[trigger] haystack.subrange(
            i,
            i + needle.len(),
        ) == needle
}

fn chars_of(s: &str) -> (r: Vec<char>)
    ensures
        r@ == s@,
{
    let n = s.unicode_len();
    let mut r: Vec<char> = Vec::new();
    let mut i: usize = 0;
    while i < n
        invariant
            n == s@.len(),
            i <= n,
            r@ =~= s@.subrange(0, i as int),
        decreases n - i,
    {
        r.push(s.get_char(i));
        i = i + 1;
    }
    assert(r@ =~= s@);
    r
}

/// Whether `needle` occurs in `haystack`.
pub fn contains_text(haystack: &str, needle: &str) -> (r: bool)
    ensures
        r == is_substring(needle@, haystack@),
{
    let h = chars_of(haystack);
    let n = chars_of(needle);
    if n.len() > h.len() {
        return false;
    }
    let hl = h.len();
    let mut i: usize = 0;
    while i <= h.len() - n.len()
        invariant
            hl == h@.len(),
            h@ == haystack@,
            n@ == needle@,
            n@.len() <= h@.len(),
            i <= h@.len() - n@.len() + 1,
            forall|k: int| 0 <= k < i ==> #[trigger] h@.subrange(k, k + n@.len()) != n@,
        decreases h@.len() - n@.len() + 1 - i,
    {
        let mut j: usize = 0;
        let mut same = true;
        while j < n.len()
            invariant
                hl == h@.len(),
                h@ == haystack@,
                n@ == needle@,
                i + n@.len() <= h@.len(),
                j <= n@.len(),
                same == forall|m: int| 0 <= m < j ==> h@[i + m] == n@[m],
            decreases n@.len() - j,
        {
            same = same && h[i + j] == n[j];
            j = j + 1;
        }
        if same {
            assert(h@.subrange(i as int, i + n@.len()) =~= n@);
            return true;
        }
        assert(h@.subrange(i as int, i + n@.len()) != n@) by {
            let m = choose|m: int| 0 <= m < n@.len() && h@[i + m] != n@[m];
            assert(h@.subrange(i as int, i + n@.len())[m] == h@[i + m]);
        }
        i = i + 1;
    }
    assert(!is_substring(needle@, haystack@)) by {
        if is_substring(needle@, haystack@) {
            let k = choose|k: int|
                0 <= k && k + needle@.len() <= haystack@.len() && #[trigger] haystack@.subrange(
                    k,
                    k + needle@.len(),
                ) == needle@;
            assert(h@.subrange(k, k + n@.len()) == n@);
        }
    }
    false
}

/// The property key of a device's friendly name.
pub open spec fn friendly_name_key() -> PnpDevicePropertyKey {
    PnpDevicePropertyKey {
        fmtid: Uuid {
            data1: 0xa45c254e,
            data2: 0xdf1c,
            data3: 0x4efd,
            data4: [0x80, 0x20, 0x67, 0xd1, 0x46, 0xa8, 0x50, 0xe0],
        },
        pid: 14,
    }
}

/// The property key of a Bluetooth device's battery level.
pub open spec fn battery_level_key() -> PnpDevicePropertyKey {
    PnpDevicePropertyKey {
        fmtid: Uuid {
            data1: 0x104ea319,
            data2: 0x6ee2,
            data3: 0x4701,
            data4: [0xbd, 0x47, 0x8d, 0xdb, 0xf4, 0x25, 0xbb, 0xe5],
        },
        pid: 2,
    }
}

pub fn device_friendly_name_key() -> (r: PnpDevicePropertyKey)
    ensures
        r == friendly_name_key(),
{
    PnpDevicePropertyKey {
        fmtid: Uuid {
            data1: 0xa45c254e,
            data2: 0xdf1c,
            data3: 0x4efd,
            data4: [0x80, 0x20, 0x67, 0xd1, 0x46, 0xa8, 0x50, 0xe0],
        },
        pid: 14,
    }
}

pub fn bluetooth_battery_key() -> (r: PnpDevicePropertyKey)
    ensures
        r == battery_level_key(),
{
    PnpDevicePropertyKey {
        fmtid: Uuid {
            data1: 0x104ea319,
            data2: 0x6ee2,
            data3: 0x4701,
            data4: [0xbd, 0x47, 0x8d, 0xdb, 0xf4, 0x25, 0xbb, 0xe5],
        },
        pid: 2,
    }
}

/// Scans a device's properties in order for its name and battery level: a
/// pair is taken at the first entry, other than those two, that follows
/// both.
pub open spec fn scan_name_and_battery(
    entries: Seq<(PnpDevicePropertyKey, PnpDevicePropertyValue)>,
    name: Option<Seq<char>>,
    battery: Option<u8>,
) -> Option<(Seq<char>, u8)>
    decreases entries.len(),
{
    if entries.len() == 0 {
        None
    } else {
        let (key, value) = entries[0];
        let rest = entries.drop_first();
        if key == friendly_name_key() {
            scan_name_and_battery(
                rest,
                match value {
                    PnpDevicePropertyValue::String(s) => Some(s@),
                    _ => name,
                },
                battery,
            )
        } else if key == battery_level_key() {
            scan_name_and_battery(
                rest,
                name,
                match value {
                    PnpDevicePropertyValue::Byte(b) => Some(b),
                    _ => battery,
                },
            )
        } else if name is Some && battery is Some {
            Some((name->0, battery->0))
        } else {
            scan_name_and_battery(rest, name, battery)
        }
    }
}

/// The Bluetooth devices' instance ids contain this enumerator prefix.
pub open spec fn bluetooth_enumerator() -> Seq<char> {
    seq!['B', 'T', 'H', 'E', 'N', 'U', 'M', '\\']
}

/// The name and battery level found for a device node, if it is a
/// Bluetooth device with instance properties that hold both.
pub open spec fn node_name_and_battery(node: PnpDeviceNodeInfo) -> Option<(Seq<char>, u8)> {
    if is_substring(bluetooth_enumerator(), node.device_instance_id@) {
        match node.device_instance_properties {
            Some(m) => scan_name_and_battery(m.spec_entries(), None, None),
            None => None,
        }
    } else {
        None
    }
}

/// The name and battery level of each Bluetooth device node, in order.
pub open spec fn bt_devices_info(nodes: Seq<PnpDeviceNodeInfo>) -> Seq<(Seq<char>, u8)>
    decreases nodes.len(),
{
    if nodes.len() == 0 {
        seq![]
    } else {
        let prefix = bt_devices_info(nodes.drop_last());
        match node_name_and_battery(nodes.last()) {
            Some(p) => prefix.push(p),
            None => prefix,
        }
    }
}

fn name_and_battery(node: &PnpDeviceNodeInfo) -> (r: Option<(String, u8)>)
    ensures
        match node_name_and_battery(*node) {
            Some(p) => r is Some && (r->0).0@ == p.0 && (r->0).1 == p.1,
            None => r is None,
        },
{
    proof {
        reveal_strlit("BTHENUM\\");
    }
    assert("BTHENUM\\"@ == bluetooth_enumerator());
    if !contains_text(node.device_instance_id.as_str(), "BTHENUM\\") {
        return None;
    }
    let properties = match &node.device_instance_properties {
        Some(m) => m,
        None => return None,
    };
    let entries = properties.entries();
    let friendly_name = device_friendly_name_key();
    let battery_key = bluetooth_battery_key();
    let mut name: Option<&String> = None;
    let mut battery: Option<u8> = None;
    let mut i: usize = 0;
    assert(entries@.subrange(0, entries@.len() as int) =~= entries@);
    while i < entries.len()
        invariant
            i <= entries@.len(),
            entries@ == properties.spec_entries(),
            friendly_name == friendly_name_key(),
            battery_key == battery_level_key(),
            node_name_and_battery(*node) == scan_name_and_battery(
                entries@.subrange(i as int, entries@.len() as int),
                match name {
                    Some(s) => Some(s@),
                    None => None,
                },
                battery,
            ),
        decreases entries@.len() - i,
    {
        let ghost rest = entries@.subrange(i + 1, entries@.len() as int);
        assert(entries@.subrange(i as int, entries@.len() as int).drop_first() =~= rest);
        let entry = &entries[i];
        if entry.0 == friendly_name {
            if let PnpDevicePropertyValue::String(s) = &entry.1 {
                name = Some(s);
            }
        } else if entry.0 == battery_key {
            if let PnpDevicePropertyValue::Byte(b) = &entry.1 {
                battery = Some(*b);
            }
        } else if name.is_some() && battery.is_some() {
            match (name, battery) {
                (Some(s), Some(b)) => {
                    return Some((s.clone(), b));
                },
                _ => {},
            }
        }
        i = i + 1;
    }
    None
}

/// The name and battery level of each Bluetooth device among the nodes, in
/// order.
pub fn get_pnp_bt_devices_info(nodes: &Vec<PnpDeviceNodeInfo>) -> (r: Vec<(String, u8)>)
    ensures
        r@.len() == bt_devices_info(nodes@).len(),
        forall|i: int|
            0 <= i < r@.len() ==> (#[trigger] r@[i]).0@ == bt_devices_info(nodes@)[i].0 && r@[i].1
                == bt_devices_info(nodes@)[i].1,
{
    let mut r: Vec<(String, u8)> = Vec::new();
    let mut k: usize = 0;
    while k < nodes.len()
        invariant
            k <= nodes@.len(),
            r@.len() == bt_devices_info(nodes@.subrange(0, k as int)).len(),
            forall|i: int|
                0 <= i < r@.len() ==> (#[trigger] r@[i]).0@ == bt_devices_info(
                    nodes@.subrange(0, k as int),
                )[i].0 && r@[i].1 == bt_devices_info(nodes@.subrange(0, k as int))[i].1,
        decreases nodes@.len() - k,
    {
        assert(nodes@.subrange(0, k + 1).drop_last() =~= nodes@.subrange(0, k as int));
        match name_and_battery(&nodes[k]) {
            Some(p) => r.push(p),
            None => {},
        }
        k = k + 1;
    }
    assert(nodes@.subrange(0, k as int) =~= nodes@);
    r
}

/// The index of the first entry whose device name contains `name`.
pub open spec fn first_match(pnp: Seq<(String, u8)>, name: Seq<char>) -> Option<int> {
    if exists|i: int| 0 <= i < pnp.len() && is_substring(name, (#[trigger] pnp[i]).0@) {
        Some(
            choose|i: int|
                0 <= i < pnp.len() && is_substring(name, (#[trigger] pnp[i]).0@) && forall|j: int|
                    0 <= j < i ==> !is_substring(name, (#[trigger] pnp[j]).0@),
        )
    } else {
        None
    }
}

/// The battery level of the first device whose name contains `name`: a
/// device's Bluetooth name is a prefix of the names of its device nodes.
pub fn find_pnp_battery(pnp_bt_devices_info: &Vec<(String, u8)>, name: &str) -> (r: Option<u8>)
    ensures
        match first_match(pnp_bt_devices_info@, name@) {
            Some(i) => r == Some(pnp_bt_devices_info@[i].1),
            None => r is None,
        },
{
    let mut i: usize = 0;
    while i < pnp_bt_devices_info.len()
        invariant
            i <= pnp_bt_devices_info@.len(),
            forall|j: int| 0 <= j < i ==> !is_substring(name@, (#[trigger] pnp_bt_devices_info@[j]).0@),
        decreases pnp_bt_devices_info@.len() - i,
    {
        if contains_text(pnp_bt_devices_info[i].0.as_str(), name) {
            let ghost p = pnp_bt_devices_info@;
            assert(first_match(p, name@) == Some(i as int)) by {
                let c = choose|c: int|
                    0 <= c < p.len() && is_substring(name@, (#[trigger] p[c]).0@) && forall|j: int|
                        0 <= j < c ==> !is_substring(name@, (#[trigger] p[j]).0@);
                assert(is_substring(name@, p[i as int].0@));
                if c < i {
                } else if c > i {
                }
            }
            return Some(pnp_bt_devices_info[i].1);
        }
        i = i + 1;
    }
    None
}

} // verus!

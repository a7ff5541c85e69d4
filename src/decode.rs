use crate::property_value::PnpDevicePropertyValue;
use crate::uuid::Uuid;
use vstd::prelude::*;

verus! {

/// The error of `String::from_utf16`, carried through unread.
#[verifier::external_type_specification]
#[verifier::external_body]
pub struct ExFromUtf16Error(std::string::FromUtf16Error);

/// Why a property value could not be fetched or decoded.
#[derive(Debug)]
pub enum GetDevicePropertyValueError {
    StringListTerminationError,
    StringDecodingError(std::string::FromUtf16Error),
    StringTerminationError,
    Win32Error(u32),
}

/// The native error code for malformed data.
pub const ERROR_INVALID_DATA: u32 = 13;

/// Property type codes.
pub const DEVPROP_TYPE_BYTE: u32 = 3;
pub const DEVPROP_TYPE_UINT16: u32 = 5;
pub const DEVPROP_TYPE_UINT32: u32 = 7;
pub const DEVPROP_TYPE_GUID: u32 = 13;
pub const DEVPROP_TYPE_BOOLEAN: u32 = 17;
pub const DEVPROP_TYPE_STRING: u32 = 18;
pub const DEVPROP_TYPE_SECURITY_DESCRIPTOR_STRING: u32 = 20;
pub const MAX_DEVPROP_TYPE: u32 = 25;

/// Property type modifiers.
pub const DEVPROP_TYPEMOD_ARRAY: u32 = 0x1000;
pub const DEVPROP_TYPEMOD_LIST: u32 = 0x2000;
pub const MAX_DEVPROP_TYPEMOD: u32 = 0x2000;

/// Registry value types.
pub const REG_SZ: u32 = 1;
pub const REG_DWORD: u32 = 4;
pub const REG_MULTI_SZ: u32 = 7;

/// The bits of a type code that hold the base type.
pub open spec fn base_type_of(t: u32) -> u32 {
    t & 0x1f
}

/// The bits of a type code that hold a modifier.
pub open spec fn modifier_of(t: u32) -> u32 {
    t & 0x3fe0
}

/// `r` is the smallest all-ones mask that covers `value`.
pub open spec fn is_mask_to_fit(value: u32, r: u32) -> bool {
    &&& value <= r
    &&& (r as u64) & (((r as u64) + 1) as u64) == 0
    &&& r / 2 < value
}

/// How a decode failed, as the error that reports it.
pub enum DecodeFailure {
    Win32(u32),
    StringTermination,
    StringListTermination,
    StringDecoding,
}

/// What decoding a property buffer gives.
pub enum Decoded {
    /// A value that spec code can state as it is.
    Value(PnpDevicePropertyValue),
    Array(Seq<PnpDevicePropertyValue>),
    Text(Seq<char>),
    List(Seq<Seq<char>>),
    Failed(DecodeFailure),
}

pub open spec fn is_fixed_size_type(base: u32) -> bool {
    base == DEVPROP_TYPE_BYTE || base == DEVPROP_TYPE_BOOLEAN || base == DEVPROP_TYPE_GUID || base
        == DEVPROP_TYPE_UINT16 || base == DEVPROP_TYPE_UINT32
}

pub open spec fn element_size(base: u32) -> nat {
    if base == DEVPROP_TYPE_GUID {
        16
    } else if base == DEVPROP_TYPE_UINT16 {
        2
    } else if base == DEVPROP_TYPE_UINT32 {
        4
    } else {
        1
    }
}

pub open spec fn le_u16(b0: u8, b1: u8) -> u16 {
    (b0 as u16) | ((b1 as u16) << 8u16)
}

pub open spec fn le_u32(b: Seq<u8>, at: int) -> u32 {
    (b[at] as u32) | ((b[at + 1] as u32) << 8u32) | ((b[at + 2] as u32) << 16u32) | ((b[at
        + 3] as u32) << 24u32)
}

/// One fixed-size element, read little-endian as every Windows target lays
/// it out.
pub open spec fn scalar_value(base: u32, b: Seq<u8>) -> PnpDevicePropertyValue {
    if base == DEVPROP_TYPE_BYTE {
        PnpDevicePropertyValue::Byte(b[0])
    } else if base == DEVPROP_TYPE_BOOLEAN {
        PnpDevicePropertyValue::Boolean(b[0] != 0)
    } else if base == DEVPROP_TYPE_GUID {
        PnpDevicePropertyValue::Guid(
            Uuid {
                data1: le_u32(b, 0),
                data2: le_u16(b[4], b[5]),
                data3: le_u16(b[6], b[7]),
                data4: [b[8], b[9], b[10], b[11], b[12], b[13], b[14], b[15]],
            },
        )
    } else if base == DEVPROP_TYPE_UINT16 {
        PnpDevicePropertyValue::UInt16(le_u16(b[0], b[1]))
    } else {
        PnpDevicePropertyValue::UInt32(le_u32(b, 0))
    }
}

pub open spec fn decode_fixed(b: Seq<u8>, base: u32, array: bool) -> Decoded {
    let size = element_size(base);
    if array {
        if b.len() % size != 0 {
            Decoded::Failed(DecodeFailure::Win32(ERROR_INVALID_DATA))
        } else {
            Decoded::Array(
                Seq::new(b.len() / size, |i: int| scalar_value(base, b.subrange(i * size, i * size + size))),
            )
        }
    } else {
        if b.len() != size {
            Decoded::Failed(DecodeFailure::Win32(ERROR_INVALID_DATA))
        } else {
            Decoded::Value(scalar_value(base, b))
        }
    }
}

pub open spec fn failure_of(e: GetDevicePropertyValueError) -> DecodeFailure {
    match e {
        GetDevicePropertyValueError::StringListTerminationError => DecodeFailure::StringListTermination,
        GetDevicePropertyValueError::StringDecodingError(_) => DecodeFailure::StringDecoding,
        GetDevicePropertyValueError::StringTerminationError => DecodeFailure::StringTermination,
        GetDevicePropertyValueError::Win32Error(c) => DecodeFailure::Win32(c),
    }
}

pub open spec fn is_string_value(v: PnpDevicePropertyValue, cs: Seq<char>) -> bool {
    match v {
        PnpDevicePropertyValue::String(s) => s@ == cs,
        _ => false,
    }
}

/// `r` is what `d` describes.
pub open spec fn decodes_to(
    r: Result<PnpDevicePropertyValue, GetDevicePropertyValueError>,
    d: Decoded,
) -> bool {
    match d {
        Decoded::Value(v) => r == Ok::<PnpDevicePropertyValue, GetDevicePropertyValueError>(v),
        Decoded::Array(items) => match r {
            Ok(PnpDevicePropertyValue::ArrayOfValues(vs)) => vs@ == items,
            _ => false,
        },
        Decoded::Text(cs) => match r {
            Ok(v) => is_string_value(v, cs),
            _ => false,
        },
        Decoded::List(ss) => match r {
            Ok(PnpDevicePropertyValue::ListOfValues(vs)) => vs@.len() == ss.len() && forall|i: int|
                0 <= i < ss.len() ==> is_string_value(#[trigger] vs@[i], ss[i]),
            _ => false,
        },
        Decoded::Failed(f) => match r {
            Err(e) => failure_of(e) == f,
            _ => false,
        },
    }
}

proof fn lemma_mask_to_fit(value: u32, z: u32)
    by (bit_vector)
    requires
        z < 32,
        (value as u64) < (1u64 << ((32 - z) as u64)),
        value & (1u32 << ((31 - z) as u32)) != 0,
    ensures
        is_mask_to_fit(value, 0xffff_ffffu32 >> z),
{
}

proof fn lemma_no_high_bits(value: u32, z: u32)
    by (bit_vector)
    requires
        value != 0,
        z < 32,
        (value as u64) < (1u64 << ((32 - z) as u64)),
        value & (1u32 << ((31 - z) as u32)) == 0,
    ensures
        z < 31,
        (value as u64) < (1u64 << ((32 - (z + 1)) as u64)),
{
}

proof fn lemma_type_masks(a: u32, b: u32)
    by (bit_vector)
    requires
        is_mask_to_fit(25, a),
        is_mask_to_fit(0x2000, b),
    ensures
        a == 0x1f,
        a ^ b == 0x3fe0,
{
}

/// The smallest all-ones mask that covers `value`.
pub fn calculate_mask_to_fit_value(value: u32) -> (r: u32)
    requires
        value != 0,
    ensures
        is_mask_to_fit(value, r),
{
    let mut number_of_high_zero_bits: u32 = 0;
    assert((value as u64) < (1u64 << 32u64)) by (bit_vector);
    loop
        invariant
            value != 0,
            number_of_high_zero_bits < 32,
            (value as u64) < (1u64 << ((32 - number_of_high_zero_bits) as u64)),
        ensures
            number_of_high_zero_bits < 32,
            (value as u64) < (1u64 << ((32 - number_of_high_zero_bits) as u64)),
            value & (1u32 << ((31 - number_of_high_zero_bits) as u32)) != 0,
        decreases 32 - number_of_high_zero_bits,
    {
        if value & (1u32 << (31 - number_of_high_zero_bits)) != 0 {
            break ;
        }
        proof {
            lemma_no_high_bits(value, number_of_high_zero_bits);
        }
        number_of_high_zero_bits = number_of_high_zero_bits + 1;
    }
    proof {
        lemma_mask_to_fit(value, number_of_high_zero_bits);
    }
    0xffff_ffffu32 >> number_of_high_zero_bits
}

fn element_size_of(base: u32) -> (r: usize)
    ensures
        r == element_size(base),
{
    if base == DEVPROP_TYPE_GUID {
        16
    } else if base == DEVPROP_TYPE_UINT16 {
        2
    } else if base == DEVPROP_TYPE_UINT32 {
        4
    } else {
        1
    }
}

fn read_le_u32(b: &Vec<u8>, at: usize) -> (r: u32)
    requires
        at + 4 <= b@.len() <= usize::MAX,
    ensures
        r == le_u32(b@, at as int),
{
    (b[at] as u32) | ((b[at + 1] as u32) << 8u32) | ((b[at + 2] as u32) << 16u32) | ((b[at + 3] as u32) << 24u32)
}

fn decode_scalar(b: &Vec<u8>, at: usize, base: u32) -> (v: PnpDevicePropertyValue)
    requires
        is_fixed_size_type(base),
        at + element_size(base) <= b@.len() <= usize::MAX,
    ensures
        v == scalar_value(base, b@.subrange(at as int, at + element_size(base))),
{
    let ghost c = b@.subrange(at as int, at + element_size(base));
    if base == DEVPROP_TYPE_BYTE {
        PnpDevicePropertyValue::Byte(b[at])
    } else if base == DEVPROP_TYPE_BOOLEAN {
        PnpDevicePropertyValue::Boolean(b[at] != 0)
    } else if base == DEVPROP_TYPE_GUID {
        let u = Uuid {
            data1: read_le_u32(b, at),
            data2: (b[at + 4] as u16) | ((b[at + 5] as u16) << 8u16),
            data3: (b[at + 6] as u16) | ((b[at + 7] as u16) << 8u16),
            data4: [
                b[at + 8],
                b[at + 9],
                b[at + 10],
                b[at + 11],
                b[at + 12],
                b[at + 13],
                b[at + 14],
                b[at + 15],
            ],
        };
        assert(le_u32(c, 0) == le_u32(b@, at as int));
        PnpDevicePropertyValue::Guid(u)
    } else if base == DEVPROP_TYPE_UINT16 {
        PnpDevicePropertyValue::UInt16((b[at] as u16) | ((b[at + 1] as u16) << 8u16))
    } else {
        assert(le_u32(c, 0) == le_u32(b@, at as int));
        PnpDevicePropertyValue::UInt32(read_le_u32(b, at))
    }
}

fn decode_fixed_size(b: &Vec<u8>, base: u32, array: bool) -> (r: Result<
    PnpDevicePropertyValue,
    GetDevicePropertyValueError,
>)
    requires
        is_fixed_size_type(base),
    ensures
        decodes_to(r, decode_fixed(b@, base, array)),
{
    let size = element_size_of(base);
    let len = b.len();
    assert(b@.len() <= usize::MAX);
    if array {
        if len % size != 0 {
            return Err(GetDevicePropertyValueError::Win32Error(ERROR_INVALID_DATA));
        }
        let n = len / size;
        proof {
            vstd::arithmetic::div_mod::lemma_fundamental_div_mod(len as int, size as int);
        }
        let mut items: Vec<PnpDevicePropertyValue> = Vec::new();
        let mut i: usize = 0;
        while i < n
            invariant
                i <= n,
                n == len / size,
                n * size == len,
                len == b@.len(),
                size == element_size(base),
                is_fixed_size_type(base),
                items@ =~= Seq::new(
                    i as nat,
                    |j: int| scalar_value(base, b@.subrange(j * size, j * size + size)),
                ),
            decreases n - i,
        {
            assert(i * size + size <= n * size) by (nonlinear_arith)
                requires
                    i < n,
            ;
            let v = decode_scalar(b, i * size, base);
            items.push(v);
            i = i + 1;
        }
        Ok(PnpDevicePropertyValue::ArrayOfValues(items))
    } else {
        if len != size {
            return Err(GetDevicePropertyValueError::Win32Error(ERROR_INVALID_DATA));
        }
        let v = decode_scalar(b, 0, base);
        assert(b@.subrange(0, size as int) =~= b@);
        Ok(v)
    }
}

/// The text that a run of UTF-16 code units decodes to, or `None` when the
/// run is not valid UTF-16.
pub uninterp spec fn utf16_text(units: Seq<u16>) -> Option<Seq<char>>;

/// Relies on `String::from_utf16`: decodes UTF-16 code units, failing on an
/// unpaired surrogate.
#[verifier::external_body]
pub(crate) fn string_from_utf16(units: &Vec<u16>) -> (r: Result<String, std::string::FromUtf16Error>)
    ensures
        match r {
            Ok(s) => utf16_text(units@) == Some(s@),
            Err(_) => utf16_text(units@) is None,
        },
{
    String::from_utf16(units)
}

/// The buffer as UTF-16 code units, two bytes each, little-endian.
pub open spec fn utf16_units(b: Seq<u8>) -> Seq<u16> {
    Seq::new(b.len() / 2, |i: int| le_u16(b[2 * i], b[2 * i + 1]))
}

/// The null-terminated strings in `u`, the first of them continuing `cur`.
pub open spec fn split_strings(u: Seq<u16>, cur: Seq<u16>) -> Seq<Seq<u16>>
    decreases u.len(),
{
    if u.len() == 0 {
        seq![]
    } else if u[0] == 0 {
        seq![cur] + split_strings(u.drop_first(), seq![])
    } else {
        split_strings(u.drop_first(), cur.push(u[0]))
    }
}

/// Decoding a string, or with `list` a run of null-terminated strings closed
/// by one more null.
pub open spec fn decode_string(b: Seq<u8>, list: bool) -> Decoded {
    let u = utf16_units(b);
    if b.len() % 2 != 0 || u.len() == 0 {
        Decoded::Failed(DecodeFailure::Win32(ERROR_INVALID_DATA))
    } else if u.last() != 0 {
        if list {
            Decoded::Failed(DecodeFailure::StringListTermination)
        } else {
            Decoded::Failed(DecodeFailure::StringTermination)
        }
    } else if !list {
        match utf16_text(u.drop_last()) {
            Some(cs) => Decoded::Text(cs),
            None => Decoded::Failed(DecodeFailure::StringDecoding),
        }
    } else {
        let rest = u.drop_last();
        if rest.len() > 0 && rest.last() != 0 {
            Decoded::Failed(DecodeFailure::StringTermination)
        } else {
            let pieces = split_strings(rest, seq![]);
            if forall|i: int| 0 <= i < pieces.len() ==> (#[trigger] utf16_text(pieces[i])) is Some {
                Decoded::List(Seq::new(pieces.len(), |i: int| utf16_text(pieces[i])->0))
            } else {
                Decoded::Failed(DecodeFailure::StringDecoding)
            }
        }
    }
}

/// What a property buffer of type code `t` decodes to. The type code holds a
/// base type and at most one modifier: an array modifier applies to
/// fixed-size types, a list modifier to strings; anything else is kept as an
/// unsupported type.
pub open spec fn decode_property(b: Seq<u8>, t: u32) -> Decoded {
    let base = base_type_of(t);
    let modifier = modifier_of(t);
    let unsupported = Decoded::Value(PnpDevicePropertyValue::UnsupportedPropertyDataType(t));
    if modifier == 0 {
        if is_fixed_size_type(base) {
            decode_fixed(b, base, false)
        } else if base == DEVPROP_TYPE_STRING {
            decode_string(b, false)
        } else {
            unsupported
        }
    } else if modifier == DEVPROP_TYPEMOD_ARRAY && is_fixed_size_type(base) {
        decode_fixed(b, base, true)
    } else if modifier == DEVPROP_TYPEMOD_LIST && base == DEVPROP_TYPE_STRING {
        decode_string(b, true)
    } else {
        unsupported
    }
}

/// What a legacy registry property decodes to: a registry type is first
/// mapped onto a property type, and an unsupported type is reported in
/// registry terms.
pub open spec fn decode_registry_property(b: Seq<u8>, reg_type: u32) -> Decoded {
    let unsupported = Decoded::Value(PnpDevicePropertyValue::UnsupportedRegistryDataType(reg_type));
    let d = if reg_type == REG_DWORD {
        decode_property(b, DEVPROP_TYPE_UINT32)
    } else if reg_type == REG_MULTI_SZ {
        decode_property(b, DEVPROP_TYPE_STRING | DEVPROP_TYPEMOD_LIST)
    } else if reg_type == REG_SZ {
        decode_property(b, DEVPROP_TYPE_STRING)
    } else {
        unsupported
    };
    match d {
        Decoded::Value(PnpDevicePropertyValue::UnsupportedPropertyDataType(_)) => unsupported,
        _ => d,
    }
}

proof fn lemma_split_step(u: Seq<u16>, j: int, cur: Seq<u16>)
    requires
        0 <= j < u.len(),
    ensures
        split_strings(u.subrange(j, u.len() as int), cur) == (if u[j] == 0 {
            seq![cur] + split_strings(u.subrange(j + 1, u.len() as int), seq![])
        } else {
            split_strings(u.subrange(j + 1, u.len() as int), cur.push(u[j]))
        }),
{
    assert(u.subrange(j, u.len() as int).drop_first() =~= u.subrange(j + 1, u.len() as int));
}

fn decode_string_buffer(b: &Vec<u8>, list: bool) -> (r: Result<
    PnpDevicePropertyValue,
    GetDevicePropertyValueError,
>)
    ensures
        decodes_to(r, decode_string(b@, list)),
{
    let len = b.len();
    if len % 2 != 0 {
        return Err(GetDevicePropertyValueError::Win32Error(ERROR_INVALID_DATA));
    }
    let mut units: Vec<u16> = Vec::new();
    let mut i: usize = 0;
    while i < len / 2
        invariant
            len == b@.len(),
            len % 2 == 0,
            i <= len / 2,
            units@ =~= utf16_units(b@).subrange(0, i as int),
        decreases len / 2 - i,
    {
        units.push((b[2 * i] as u16) | ((b[2 * i + 1] as u16) << 8u16));
        i = i + 1;
    }
    assert(units@ =~= utf16_units(b@));
    if units.len() == 0 {
        return Err(GetDevicePropertyValueError::Win32Error(ERROR_INVALID_DATA));
    }
    if units[units.len() - 1] != 0 {
        if list {
            return Err(GetDevicePropertyValueError::StringListTerminationError);
        } else {
            return Err(GetDevicePropertyValueError::StringTerminationError);
        }
    }
    let ghost all = units@;
    units.pop();
    assert(units@ =~= all.drop_last());
    if !list {
        return match string_from_utf16(&units) {
            Ok(s) => Ok(PnpDevicePropertyValue::String(s)),
            Err(e) => Err(GetDevicePropertyValueError::StringDecodingError(e)),
        };
    }
    let n = units.len();
    if n > 0 && units[n - 1] != 0 {
        return Err(GetDevicePropertyValueError::StringTerminationError);
    }
    let ghost pieces = split_strings(units@, seq![]);
    let ghost mut done: Seq<Seq<u16>> = seq![];
    let mut values: Vec<PnpDevicePropertyValue> = Vec::new();
    let mut current: Vec<u16> = Vec::new();
    let mut j: usize = 0;
    assert(units@.subrange(0, n as int) =~= units@);
    while j < n
        invariant
            list,
            b@.len() % 2 == 0,
            all == utf16_units(b@),
            all.len() > 0,
            all.last() == 0,
            units@ == all.drop_last(),
            n > 0 ==> units@[n - 1] == 0,
            n == units@.len(),
            j <= n,
            pieces == split_strings(units@, seq![]),
            done + split_strings(units@.subrange(j as int, n as int), current@) == pieces,
            values@.len() == done.len(),
            forall|k: int|
                0 <= k < done.len() ==> (#[trigger] utf16_text(done[k])) is Some && is_string_value(
                    values@[k],
                    utf16_text(done[k])->0,
                ),
        decreases n - j,
    {
        proof {
            lemma_split_step(units@, j as int, current@);
        }
        let c = units[j];
        if c == 0 {
            match string_from_utf16(&current) {
                Ok(s) => {
                    values.push(PnpDevicePropertyValue::String(s));
                },
                Err(e) => {
                    proof {
                        let rest = split_strings(units@.subrange(j + 1, n as int), seq![]);
                        assert((done + (seq![current@] + rest))[done.len() as int] == current@);
                        assert(pieces[done.len() as int] == current@);
                        assert(utf16_text(pieces[done.len() as int]) is None);
                        assert(units@ == all.drop_last());
                    }
                    return Err(GetDevicePropertyValueError::StringDecodingError(e));
                },
            }
            proof {
                let rest = split_strings(units@.subrange(j + 1, n as int), seq![]);
                assert(done + (seq![current@] + rest) =~= done.push(current@) + rest);
                done = done.push(current@);
            }
            current = Vec::new();
        } else {
            current.push(c);
        }
        j = j + 1;
    }
    proof {
        assert(units@.subrange(n as int, n as int).len() == 0);
        assert(done =~= pieces);
        assert(forall|k: int| 0 <= k < pieces.len() ==> (#[trigger] utf16_text(pieces[k])) is Some);
    }
    Ok(PnpDevicePropertyValue::ListOfValues(values))
}

/// Decodes a property buffer of type code `property_type_as_u32` into a
/// value.
pub fn convert_property_buffer_into_device_property_value(
    property_buffer: Vec<u8>,
    property_type_as_u32: u32,
) -> (r: Result<PnpDevicePropertyValue, GetDevicePropertyValueError>)
    ensures
        decodes_to(r, decode_property(property_buffer@, property_type_as_u32)),
{
    let t = property_type_as_u32;
    let property_type_mask = calculate_mask_to_fit_value(MAX_DEVPROP_TYPE);
    let property_typemod_mask = calculate_mask_to_fit_value(MAX_DEVPROP_TYPEMOD);
    let property_type_mods_mask = property_type_mask ^ property_typemod_mask;
    proof {
        lemma_type_masks(property_type_mask, property_typemod_mask);
    }
    let modifier = t & property_type_mods_mask;
    let base = t & property_type_mask;
    let fixed = base == DEVPROP_TYPE_BYTE || base == DEVPROP_TYPE_BOOLEAN || base
        == DEVPROP_TYPE_GUID || base == DEVPROP_TYPE_UINT16 || base == DEVPROP_TYPE_UINT32;
    let is_array: bool;
    let is_list: bool;
    if modifier == 0 {
        is_array = false;
        is_list = false;
    } else if modifier == DEVPROP_TYPEMOD_ARRAY {
        if !fixed {
            return Ok(PnpDevicePropertyValue::UnsupportedPropertyDataType(t));
        }
        is_array = true;
        is_list = false;
    } else if modifier == DEVPROP_TYPEMOD_LIST {
        if !(base == DEVPROP_TYPE_STRING || base == DEVPROP_TYPE_SECURITY_DESCRIPTOR_STRING) {
            return Ok(PnpDevicePropertyValue::UnsupportedPropertyDataType(t));
        }
        is_array = false;
        is_list = true;
    } else {
        return Ok(PnpDevicePropertyValue::UnsupportedPropertyDataType(t));
    }
    if fixed {
        decode_fixed_size(&property_buffer, base, is_array)
    } else if base == DEVPROP_TYPE_STRING {
        decode_string_buffer(&property_buffer, is_list)
    } else {
        Ok(PnpDevicePropertyValue::UnsupportedPropertyDataType(t))
    }
}

/// Decodes a legacy registry property buffer of registry type
/// `registry_data_type`: string, multi-string and 32-bit values are decoded
/// as the matching property types, anything else is kept as an unsupported
/// registry type.
pub fn convert_registry_buffer_into_device_property_value(
    property_buffer: Vec<u8>,
    registry_data_type: u32,
) -> (r: Result<PnpDevicePropertyValue, GetDevicePropertyValueError>)
    ensures
        decodes_to(r, decode_registry_property(property_buffer@, registry_data_type)),
{
    let property_type = if registry_data_type == REG_DWORD {
        DEVPROP_TYPE_UINT32
    } else if registry_data_type == REG_MULTI_SZ {
        DEVPROP_TYPE_STRING | DEVPROP_TYPEMOD_LIST
    } else if registry_data_type == REG_SZ {
        DEVPROP_TYPE_STRING
    } else {
        return Ok(PnpDevicePropertyValue::UnsupportedRegistryDataType(registry_data_type));
    };
    match convert_property_buffer_into_device_property_value(property_buffer, property_type) {
        Ok(PnpDevicePropertyValue::UnsupportedPropertyDataType(_)) => Ok(
            PnpDevicePropertyValue::UnsupportedRegistryDataType(registry_data_type),
        ),
        other => other,
    }
}

/// A buffer typed as an array of 32-bit integers decodes to one integer for
/// each four bytes, in order; a length that is not a multiple of four is
/// invalid data.
pub proof fn lemma_uint32_array_decode(b: Seq<u8>)
    ensures
        b.len() % 4 == 0 ==> decode_property(b, DEVPROP_TYPE_UINT32 | DEVPROP_TYPEMOD_ARRAY)
            == Decoded::Array(
            Seq::new(b.len() / 4, |i: int| PnpDevicePropertyValue::UInt32(le_u32(b, 4 * i))),
        ),
        b.len() % 4 != 0 ==> decode_property(b, DEVPROP_TYPE_UINT32 | DEVPROP_TYPEMOD_ARRAY)
            == Decoded::Failed(DecodeFailure::Win32(ERROR_INVALID_DATA)),
{
    let t = DEVPROP_TYPE_UINT32 | DEVPROP_TYPEMOD_ARRAY;
    assert(t & 0x1f == 7 && t & 0x3fe0 == 0x1000) by (bit_vector)
        requires
            t == 7u32 | 0x1000u32,
    ;
    if b.len() % 4 == 0 {
        let expected = Seq::new(b.len() / 4, |i: int| PnpDevicePropertyValue::UInt32(le_u32(b, 4 * i)));
        let decoded = Seq::new(
            b.len() / 4,
            |i: int| scalar_value(DEVPROP_TYPE_UINT32, b.subrange(i * 4, i * 4 + 4)),
        );
        assert forall|i: int| 0 <= i < b.len() / 4 implies decoded[i] == expected[i] by {
            let c = b.subrange(i * 4, i * 4 + 4);
            assert(c[0] == b[4 * i] && c[1] == b[4 * i + 1] && c[2] == b[4 * i + 2] && c[3] == b[4
                * i + 3]);
        }
        assert(decoded =~= expected);
    }
}

} // verus!

use scalefs_windowspnp::uuid::{ParseUuidError, Uuid};

#[test]
fn u128_round_trip_holds_for_sample_values() {
    let samples: [u128; 6] = [
        0,
        1,
        u128::MAX,
        0x0011_2233_4455_6677_8899_aabb_ccdd_eeff,
        0x8000_0000_0000_0000_0000_0000_0000_0000,
        0x104e_a319_6ee2_4701_bd47_8ddb_f425_bbe5,
    ];
    for n in samples {
        assert_eq!(Uuid::from_u128(n).as_u128(), n);
    }
}

#[test]
fn from_u128_splits_into_fields() {
    let u = Uuid::from_u128(0x0011_2233_4455_6677_8899_aabb_ccdd_eeff);
    assert_eq!(u.data1, 0x0011_2233);
    assert_eq!(u.data2, 0x4455);
    assert_eq!(u.data3, 0x6677);
    assert_eq!(u.data4, [0x88, 0x99, 0xaa, 0xbb, 0xcc, 0xdd, 0xee, 0xff]);
}

#[test]
fn to_string_is_lower_case_8_4_4_4_12() {
    let u = Uuid::from_u128(0x0011_2233_4455_6677_8899_AABB_CCDD_EEFF);
    assert_eq!(u.to_string(), "00112233-4455-6677-8899-aabbccddeeff");
    assert_eq!(Uuid::from_u128(0).to_string(), "00000000-0000-0000-0000-000000000000");
}

#[test]
fn text_round_trip_holds_for_sample_values() {
    let samples: [u128; 4] = [0, u128::MAX, 0x0123_4567_89ab_cdef_fedc_ba98_7654_3210, 7];
    for n in samples {
        let u = Uuid::from_u128(n);
        assert_eq!(Uuid::from_str(&u.to_string()), Ok(u));
    }
}

#[test]
fn braced_and_unbraced_text_parse_alike() {
    assert_eq!(
        Uuid::from_str("{00000000-0000-0000-0000-000000000000}"),
        Uuid::from_str("00000000-0000-0000-0000-000000000000")
    );
    assert_eq!(
        Uuid::from_str("{104ea319-6ee2-4701-bd47-8ddbf425bbe5}"),
        Ok(Uuid::from_u128(0x104e_a319_6ee2_4701_bd47_8ddb_f425_bbe5))
    );
}

#[test]
fn upper_case_digits_are_accepted() {
    assert_eq!(
        Uuid::from_str("104EA319-6EE2-4701-BD47-8DDBF425BBE5"),
        Ok(Uuid::from_u128(0x104e_a319_6ee2_4701_bd47_8ddb_f425_bbe5))
    );
}

#[test]
fn nil_is_zero_only() {
    assert!(Uuid::from_u128(0).is_nil_uuid());
    assert!(!Uuid::from_u128(1).is_nil_uuid());
    assert!(!Uuid::from_u128(1u128 << 127).is_nil_uuid());
}

#[test]
fn malformed_text_is_rejected() {
    let rejected = [
        "",
        "{",
        "{}",
        "0000000g-0000-0000-0000-000000000000",
        "00000000-0000-0000-0000-00000000000x",
        "00000000-0000-0000-00-00000000000000",
        "000000000000-0000-0000-000000000000",
        "00000000-0000-0000-0000-000000000000a",
        "00000000-0000-0000-0000-0000000000",
        "{00000000-0000-0000-0000-000000000000",
        "00000000-0000-0000-0000-000000000000}",
        "{{00000000-0000-0000-0000-000000000000}}",
        "+0000000-0000-0000-0000-000000000000",
    ];
    for text in rejected {
        assert_eq!(Uuid::from_str(text), Err(ParseUuidError), "{}", text);
    }
}

#[test]
fn parse_through_from_str_trait() {
    let u: Uuid = "00112233-4455-6677-8899-aabbccddeeff".parse().unwrap();
    assert_eq!(u.as_u128(), 0x0011_2233_4455_6677_8899_aabb_ccdd_eeff);
}

#[test]
fn guid_conversions_keep_fields() {
    let u = Uuid::from_u128(0x0011_2233_4455_6677_8899_aabb_ccdd_eeff);
    let g: windows_sys::core::GUID = u.into();
    assert_eq!(g.data1, 0x0011_2233);
    assert_eq!(g.data4, [0x88, 0x99, 0xaa, 0xbb, 0xcc, 0xdd, 0xee, 0xff]);
    assert_eq!(Uuid::from(g), u);
}

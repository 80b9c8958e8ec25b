use schedule_auth::encoding::decimal::push_digits;
use schedule_auth::encoding::identifier::push_identifier;
use schedule_auth::model::account::{identifier_string, AccountID};

fn digits(n: u64) -> String {
    let mut out = Vec::new();
    push_digits(&mut out, n);
    String::from_utf8(out).unwrap()
}

#[test]
fn digits_of_known_numbers() {
    assert_eq!(digits(0), "0");
    assert_eq!(digits(7), "7");
    assert_eq!(digits(10), "10");
    assert_eq!(digits(1_600_000_300), "1600000300");
    assert_eq!(digits(u64::MAX), "18446744073709551615");
}

#[test]
fn identifier_text_is_that_of_the_uuid_crate() {
    let values: [u128; 5] = [
        0,
        1,
        u128::MAX,
        0xa1a2a3a4_b1b2_c1c2_d1d2_d3d4d5d6d7d8,
        0x00112233_4455_4677_8899_aabbccddeeff,
    ];
    for v in values {
        assert_eq!(identifier_string(v), uuid::Uuid::from_u128(v).to_string());
        assert_eq!(AccountID(v).text(), uuid::Uuid::from_u128(v).hyphenated().to_string());
        assert_eq!(uuid::Uuid::parse_str(&identifier_string(v)).unwrap().as_u128(), v);
    }
    assert_eq!(
        identifier_string(0xa1a2a3a4_b1b2_c1c2_d1d2_d3d4d5d6d7d8),
        "a1a2a3a4-b1b2-c1c2-d1d2-d3d4d5d6d7d8"
    );
    let mut out = b"xy".to_vec();
    push_identifier(&mut out, 1);
    assert_eq!(out, b"xy00000000-0000-0000-0000-000000000001".to_vec());
}

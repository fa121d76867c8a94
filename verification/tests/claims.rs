use fast_chat::crypt::token::{get_auth_header_pair, hex_fixed, uuid_string, Claims};
use fast_chat::decimal::{decimal_string, digit_of, read_decimal};
use fast_chat::graphql::user::schema::SessionUser;
use fast_chat::service::entry::EntryId;
use uuid::Uuid;

#[test]
fn an_identifier_is_written_as_the_uuid_crate_writes_it() {
    let ids: [u128; 6] = [
        0,
        1,
        u128::MAX,
        0x0123_4567_89ab_cdef_0123_4567_89ab_cdef,
        0xa1a2_a3a4_b1b2_c1c2_d1d2_d3d4_d5d6_d7d8,
        0x0000_0000_0000_0001_0000_0000_0000_0000,
    ];
    for id in ids {
        assert_eq!(uuid_string(id), Uuid::from_u128(id).to_string());
    }
    assert_eq!(
        uuid_string(0xa1a2_a3a4_b1b2_c1c2_d1d2_d3d4_d5d6_d7d8),
        "a1a2a3a4-b1b2-c1c2-d1d2-d3d4d5d6d7d8"
    );
}

#[test]
fn hexadecimal_digits_are_padded_and_cut_to_the_width() {
    assert_eq!(hex_fixed(0, 0), "");
    assert_eq!(hex_fixed(0xabc, 0), "");
    assert_eq!(hex_fixed(0, 4), "0000");
    assert_eq!(hex_fixed(0xbeef, 4), "beef");
    assert_eq!(hex_fixed(0x1beef, 4), "beef");
    assert_eq!(hex_fixed(0x2a, 8), "0000002a");
}

#[test]
fn claims_are_made_from_the_user_and_the_clock() {
    let user = SessionUser { id: 0x0123_4567_89ab_cdef_0123_4567_89ab_cdef, email: "a@b.c".to_string() };
    let claims = Claims::new(&user, 30, 1_700_000_000);
    assert_eq!(
        claims,
        Claims {
            sub: "01234567-89ab-cdef-0123-456789abcdef".to_string(),
            exp: 1_700_001_800,
            iat: 1_700_000_000,
            email: "a@b.c".to_string(),
        }
    );
    assert_eq!(claims.clone(), claims);
    assert_eq!(Claims::checked_new(&user, 30, 1_700_000_000), Some(claims));
}

#[test]
fn a_session_that_ends_beyond_the_clock_has_no_claims() {
    let user = SessionUser { id: 1, email: "a@b.c".to_string() };
    assert_eq!(Claims::checked_new(&user, i64::MAX, 0), None);
    assert_eq!(Claims::checked_new(&user, 1, i64::MAX), None);
    assert_eq!(Claims::checked_new(&user, -1, i64::MIN), None);
    assert_eq!(Claims::checked_new(&user, i64::MAX / 60 + 1, i64::MIN), None);
    let edge = Claims::checked_new(&user, 1, i64::MAX - 60).unwrap();
    assert_eq!(edge.exp, i64::MAX);
    let past = Claims::checked_new(&user, -1, 100).unwrap();
    assert_eq!(past.exp, 40);
    assert_eq!(Claims::checked_new(&user, 0, 5).unwrap().exp, 5);
}

#[test]
fn the_token_travels_as_a_bearer() {
    assert_eq!(
        get_auth_header_pair("abc.def.ghi".to_string()),
        ("authorization".to_string(), "Bearer abc.def.ghi".to_string())
    );
    assert_eq!(get_auth_header_pair(String::new()).1, "Bearer ");
}

#[test]
fn numbers_are_written_in_decimal() {
    assert_eq!(decimal_string(0), "0");
    assert_eq!(decimal_string(10), "10");
    assert_eq!(decimal_string(1_526_919_030_474), "1526919030474");
    assert_eq!(decimal_string(u64::MAX), "18446744073709551615");
}

#[test]
fn digits_are_read() {
    assert_eq!(digit_of('0'), Some(0));
    assert_eq!(digit_of('9'), Some(9));
    assert_eq!(digit_of('a'), None);
    assert_eq!(digit_of('-'), None);
    assert_eq!(digit_of('٣'), None);
    let text: Vec<char> = "x0042y".chars().collect();
    assert_eq!(read_decimal(&text, 1, 5), Some(42));
    assert_eq!(read_decimal(&text, 1, 1), None);
    assert_eq!(read_decimal(&text, 0, 5), None);
    assert_eq!(read_decimal(&text, 4, 6), None);
    let max: Vec<char> = "18446744073709551615".chars().collect();
    assert_eq!(read_decimal(&max, 0, max.len()), Some(u64::MAX));
    let over: Vec<char> = "18446744073709551616".chars().collect();
    assert_eq!(read_decimal(&over, 0, over.len()), None);
}

#[test]
fn a_position_is_written_as_the_log_writes_it() {
    assert_eq!(EntryId { ms: 1_526_919_030_474, seq: 55 }.text(), "1526919030474-55");
    assert_eq!(EntryId::start().text(), "0-0");
    assert_eq!(EntryId { ms: u64::MAX, seq: u64::MAX }.text(), "18446744073709551615-18446744073709551615");
}

#[test]
fn a_written_position_is_read_back() {
    assert_eq!(EntryId::parse("1526919030474-55"), Some(EntryId { ms: 1_526_919_030_474, seq: 55 }));
    assert_eq!(EntryId::parse("0-0"), Some(EntryId::start()));
    assert_eq!(
        EntryId::parse("18446744073709551615-0"),
        Some(EntryId { ms: u64::MAX, seq: 0 })
    );
    for id in [EntryId { ms: 7, seq: 0 }, EntryId { ms: 10, seq: 100 }, EntryId { ms: 0, seq: 9 }] {
        assert_eq!(EntryId::parse(&id.text()), Some(id));
    }
}

#[test]
fn what_is_no_written_position_is_refused() {
    for text in [
        "", "-", "5", "5-", "-5", "5-5-5", "5--5", "a-1", "1-b", " 1-2", "1-2 ", "01-2", "1-02",
        "+1-2", "18446744073709551616-0", "0-18446744073709551616", "1_2", "٣-1", "0-0\n", "*",
    ] {
        assert_eq!(EntryId::parse(text), None, "{:?}", text);
    }
}

use stm_common::usb::string::{
    get_descriptor, str_eq, str_to_utf16_inplace, str_utf16_count, string_descriptor,
    string_index,
};
use stm_common::usb::types::SetupResult;

#[test]
fn test_utf16() {
    for s in ["abcd123456", "12🔴3🟥4🛑56🚫7🚨8😷"] {
        let len = str_utf16_count(s);
        let mut place = Vec::new();
        place.resize(len, 0);
        str_to_utf16_inplace(&mut place, s);
        let utf16: Vec<u16> = s.encode_utf16().collect();
        assert_eq!(place, utf16);
    }
}

#[test]
fn utf16_count_of_plain_and_astral_characters() {
    assert_eq!(str_utf16_count(""), 0);
    assert_eq!(str_utf16_count("abc"), 3);
    assert_eq!(str_utf16_count("\u{ffff}"), 1);
    assert_eq!(str_utf16_count("\u{10000}"), 2);
    assert_eq!(str_utf16_count("a\u{1f534}b"), 4);
}

#[test]
fn utf16_surrogates_are_exact() {
    let mut place = [0u16; 4];
    str_to_utf16_inplace(&mut place, "\u{10000}\u{10ffff}");
    assert_eq!(place, [0xd800, 0xdc00, 0xdbff, 0xdfff]);
}

#[test]
fn utf16_leaves_the_rest_of_the_buffer() {
    let mut place = [7u16; 5];
    str_to_utf16_inplace(&mut place, "hi");
    assert_eq!(place, [0x68, 0x69, 7, 7, 7]);
}

#[test]
fn string_descriptors() {
    assert_eq!(string_descriptor(""), Some(vec![2, 3]));
    assert_eq!(string_descriptor("Ab"), Some(vec![6, 3, 0x41, 0, 0x62, 0]));
    assert_eq!(
        string_descriptor("\u{20ac}\u{1f534}"),
        Some(vec![8, 3, 0xac, 0x20, 0x3d, 0xd8, 0x34, 0xdd])
    );
    let longest = "x".repeat(126);
    let d = string_descriptor(&longest).unwrap();
    assert_eq!(d.len(), 254);
    assert_eq!(d[0], 254);
    assert_eq!(string_descriptor(&"x".repeat(127)), None);
    // 63 characters above the 16-bit range take 126 units; one more is too much.
    assert!(string_descriptor(&"\u{10000}".repeat(63)).is_some());
    assert_eq!(string_descriptor(&"\u{10000}".repeat(64)), None);
}

static LANGUAGES: [u8; 4] = [4, 3, 9, 4];
static MAKER: [u8; 6] = [6, 3, 0x41, 0, 0x62, 0];

#[test]
fn descriptors_by_index() {
    let table: [&'static [u8]; 2] = [&LANGUAGES, &MAKER];
    match get_descriptor(&table, 0) {
        SetupResult::Tx(d, None) => assert_eq!(d, &LANGUAGES[..]),
        other => panic!("{:?}", other),
    }
    match get_descriptor(&table, 1) {
        SetupResult::Tx(d, None) => assert_eq!(d, &MAKER[..]),
        other => panic!("{:?}", other),
    }
    assert!(matches!(get_descriptor(&table, 2), SetupResult::Rx(0, None)));
    assert!(matches!(get_descriptor(&table, 255), SetupResult::Rx(0, None)));
    assert!(matches!(get_descriptor(&[], 0), SetupResult::Rx(0, None)));
}

#[test]
fn strings_by_index() {
    let strings = ["", "Maker", "Thing", "Maker", "12🔴3"];
    assert_eq!(string_index(&strings, ""), Some(0));
    assert_eq!(string_index(&strings, "Maker"), Some(1));
    assert_eq!(string_index(&strings, "Thing"), Some(2));
    assert_eq!(string_index(&strings, "12🔴3"), Some(4));
    assert_eq!(string_index(&strings, "thing"), None);
    assert_eq!(string_index(&strings, "Thin"), None);
    assert_eq!(string_index(&[], "x"), None);
    let many: Vec<&str> = (0..300).map(|i| if i == 255 { "last" } else if i == 256 { "over" } else { "x" }).collect();
    assert_eq!(string_index(&many, "last"), Some(255));
    assert_eq!(string_index(&many, "over"), None);
}

#[test]
fn strings_compare_by_their_characters() {
    assert!(str_eq("", ""));
    assert!(str_eq("abc", "abc"));
    assert!(!str_eq("abc", "abd"));
    assert!(!str_eq("abc", "ab"));
    assert!(!str_eq("é", "e"));
    assert!(str_eq("12🔴3", "12🔴3"));
}

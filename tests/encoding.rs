use jellyfin::digest::{md5_hex, sha1_hex, DeviceIdentity};
use jellyfin::encode::{bool_value_text, decimal_text, replace_spaces, to_lower_hex};
use jellyfin::request::{json_body1, json_body2, query_string, QueryParam};

#[test]
fn hex_has_two_lowercase_digits_per_byte() {
    assert_eq!(to_lower_hex(&[0x00, 0x0f, 0xab, 0xff]), "000fabff");
    assert_eq!(to_lower_hex(&[]), "");
}

#[test]
fn decimal_text_of_edge_values() {
    assert_eq!(decimal_text(0), "0");
    assert_eq!(decimal_text(10), "10");
    assert_eq!(decimal_text(4294967295), "4294967295");
}

#[test]
fn bool_values_are_words() {
    assert_eq!(bool_value_text(true), "true");
    assert_eq!(bool_value_text(false), "false");
}

#[test]
fn spaces_become_underscores() {
    assert_eq!(replace_spaces("My PC"), "My_PC");
    assert_eq!(replace_spaces(" a  b "), "_a__b_");
    assert_eq!(replace_spaces("My-PC"), "My-PC");
    assert_eq!(replace_spaces(""), "");
}

#[test]
fn md5_hex_of_known_texts() {
    assert_eq!(md5_hex(""), "d41d8cd98f00b204e9800998ecf8427e");
    assert_eq!(md5_hex("abc"), "900150983cd24fb0d6963f7d28e17f72");
}

#[test]
fn sha1_hex_of_known_texts() {
    assert_eq!(sha1_hex(""), "da39a3ee5e6b4b0d3255bfef95601890afd80709");
    assert_eq!(sha1_hex("abc"), "a9993e364706816aba3e25717850c26c9cd0d89d");
}

#[test]
fn device_id_is_md5_of_the_name() {
    let d = DeviceIdentity::from_name("My-PC");
    assert_eq!(d.name, "My-PC");
    assert_eq!(d.id, "2ffd6fd3e5ffad22e32a2f7c4898a9f3");
}

#[test]
fn device_name_is_normalised_before_hashing() {
    let d = DeviceIdentity::from_name("My PC");
    assert_eq!(d.name, "My_PC");
    assert_eq!(d.id, "6316ad5bb6dc8221bc6f4a487b459a11");
    assert_eq!(DeviceIdentity::from_name("My PC"), d);
}

#[test]
fn local_device_has_no_space_and_matching_id() {
    let d = DeviceIdentity::local();
    assert!(!d.name.contains(' '));
    assert_eq!(d.id, md5_hex(&d.name));
}

#[test]
fn query_string_encodes_values() {
    let empty: Vec<QueryParam> = Vec::new();
    assert_eq!(query_string(&empty), "");
    let q = vec![
        QueryParam::new("a", "x y&z".to_string()),
        QueryParam::new("b", "1.5_-*".to_string()),
        QueryParam::new("c", "2024-01-01T00:00:00Z".to_string()),
    ];
    assert_eq!(query_string(&q), "?a=x+y%26z&b=1.5_-*&c=2024-01-01T00%3A00%3A00Z");
}

#[test]
fn json_bodies_escape_values() {
    assert_eq!(json_body1("Pin", "1234"), "{\"Pin\":\"1234\"}");
    assert_eq!(json_body1("NewPw", "p\"q\\r"), "{\"NewPw\":\"p\\\"q\\\\r\"}");
    assert_eq!(
        json_body2("Name", "alice", "Password", "se cret"),
        "{\"Name\":\"alice\",\"Password\":\"se cret\"}"
    );
}

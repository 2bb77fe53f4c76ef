use chat_cli::ids::{id_to_string, new_id, parse_id, NIL_ID};

#[test]
fn id_text_round_trip() {
    let id = new_id();
    let text = id_to_string(id);
    assert_eq!(text.len(), 36);
    assert_eq!(parse_id(&text), Some(id));
}

#[test]
fn id_text_is_hyphenated_lower_hex() {
    assert_eq!(id_to_string(NIL_ID), "00000000-0000-0000-0000-000000000000");
    assert_eq!(id_to_string(0x0123456789abcdef0123456789abcdef), "01234567-89ab-cdef-0123-456789abcdef");
}

#[test]
fn parse_rejects_non_uuid() {
    assert_eq!(parse_id("hello"), None);
    assert_eq!(parse_id(""), None);
    assert_eq!(parse_id("01234567-89ab-cdef-0123-456789abcdef"), Some(0x0123456789abcdef0123456789abcdef));
}

#[test]
fn random_ids_are_version_four() {
    let id = new_id();
    assert_eq!((id >> 76) & 0xf, 4);
    assert_eq!((id >> 62) & 0x3, 2);
    assert_ne!(new_id(), new_id());
}

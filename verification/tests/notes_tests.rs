use task_reminder::notes::{
    decode_note_id, encode_note_id, note_id_from_item_label, sticky_note_item_label,
    sticky_note_item_refresh_event, STICKY_NOTE_ITEM_PREFIX,
};

#[test]
fn note_ids_are_written_in_hex() {
    assert_eq!(encode_note_id(""), "");
    assert_eq!(encode_note_id("a"), "61");
    assert_eq!(encode_note_id("note-1"), "6e6f74652d31");
    assert_eq!(encode_note_id("便签"), "e4bebfe7adbe");
    assert_eq!(encode_note_id("\u{0}\u{f}\u{10}\u{7f}"), "000f107f");
}

#[test]
fn note_ids_are_read_back() {
    assert_eq!(decode_note_id(""), Some("".to_string()));
    assert_eq!(decode_note_id("6e6f74652d31"), Some("note-1".to_string()));
    assert_eq!(decode_note_id("6E6F"), Some("no".to_string()));
    assert_eq!(decode_note_id("e4bebfe7adbe"), Some("便签".to_string()));
    assert_eq!(decode_note_id("+a"), Some("\n".to_string()));
    for id in ["", "x", "3f2b9c1e-aaaa-4bbb-8ccc-1234567890ab", "日本語 ★"] {
        assert_eq!(decode_note_id(&encode_note_id(id)), Some(id.to_string()));
    }
}

#[test]
fn malformed_note_ids_are_refused() {
    assert_eq!(decode_note_id("6"), None);
    assert_eq!(decode_note_id("6g"), None);
    assert_eq!(decode_note_id("-1"), None);
    assert_eq!(decode_note_id("a+"), None);
    assert_eq!(decode_note_id("++"), None);
    assert_eq!(decode_note_id("ff"), None);
    assert_eq!(decode_note_id("c328"), None);
    assert_eq!(decode_note_id("é"), None);
    assert_eq!(decode_note_id("éé"), None);
}

#[test]
fn labels_carry_the_note_id() {
    assert_eq!(STICKY_NOTE_ITEM_PREFIX, "sticky-note-item-");
    assert_eq!(sticky_note_item_label("a"), "sticky-note-item-61");
    assert_eq!(sticky_note_item_refresh_event("a"), "sticky-note-item-refresh-61");
    assert_eq!(note_id_from_item_label("sticky-note-item-61"), Some("a".to_string()));
    assert_eq!(note_id_from_item_label("sticky-note-item-"), Some("".to_string()));
    assert_eq!(note_id_from_item_label("sticky-note-item"), None);
    assert_eq!(note_id_from_item_label("sticky-note"), None);
    assert_eq!(note_id_from_item_label("main"), None);
    assert_eq!(note_id_from_item_label("sticky-note-item-6"), None);
    assert_eq!(note_id_from_item_label("Sticky-note-item-61"), None);
    for id in ["t-1", "便签", ""] {
        assert_eq!(note_id_from_item_label(&sticky_note_item_label(id)), Some(id.to_string()));
    }
}

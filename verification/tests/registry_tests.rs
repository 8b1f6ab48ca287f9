use bloodmessage_mod::registry::{
    add_message, find_by_text, get_message, message_wide, normalized_is_equal, remove_message,
    MessageRegistry,
};

#[test]
fn add_then_get_returns_text() {
    let mut reg = MessageRegistry::new();
    let id = add_message(&mut reg, "Try finger");
    assert_eq!(id, 1);
    assert_eq!(get_message(&reg, id), Some(String::from("Try finger")));
}

#[test]
fn ids_are_issued_in_sequence() {
    let mut reg = MessageRegistry::new();
    assert_eq!(add_message(&mut reg, "a"), 1);
    assert_eq!(add_message(&mut reg, "b"), 2);
    assert_eq!(add_message(&mut reg, "c"), 3);
    assert_eq!(get_message(&reg, 2), Some(String::from("b")));
}

#[test]
fn get_survives_unrelated_add_and_remove() {
    let mut reg = MessageRegistry::new();
    let id = add_message(&mut reg, "keep me");
    let other = add_message(&mut reg, "drop me");
    remove_message(&mut reg, other);
    assert_eq!(get_message(&reg, id), Some(String::from("keep me")));
    assert_eq!(get_message(&reg, other), None);
}

#[test]
fn remove_ends_the_entry() {
    let mut reg = MessageRegistry::new();
    let id = add_message(&mut reg, "gone soon");
    remove_message(&mut reg, id);
    assert_eq!(get_message(&reg, id), None);
}

#[test]
fn remove_of_missing_id_is_a_no_op() {
    let mut reg = MessageRegistry::new();
    let id = add_message(&mut reg, "still here");
    remove_message(&mut reg, 999);
    assert_eq!(get_message(&reg, id), Some(String::from("still here")));
}

#[test]
fn counter_wraps_and_reuses_ids_last_writer_wins() {
    let mut reg = MessageRegistry::new();
    let first = add_message(&mut reg, "first of the cycle");
    assert_eq!(first, 1);
    // issue the rest of the id space; removing each filler keeps the
    // working set small, as it is in practice
    for k in 0u32..0xFFFF {
        let id = add_message(&mut reg, &format!("filler {k}"));
        remove_message(&mut reg, id);
    }
    // 2^16 adds in total: the next id reuses the first issued value
    let reused = add_message(&mut reg, "reused slot");
    assert_eq!(reused, first);
    assert_eq!(get_message(&reg, first), Some(String::from("reused slot")));
}

#[test]
fn normalized_comparison_ignores_whitespace() {
    assert!(normalized_is_equal("Try finger", "Tryfinger"));
    assert!(normalized_is_equal(" Try  finger ", "Try finger"));
    assert!(normalized_is_equal("Try\tfin ger\n", "Tryfinger"));
    assert!(!normalized_is_equal("Try finger", "Try fingers"));
    assert!(normalized_is_equal("", "   "));
}

#[test]
fn find_by_text_is_whitespace_insensitive() {
    let mut reg = MessageRegistry::new();
    let id = add_message(&mut reg, "Try finger");
    let found = find_by_text(&reg, "  Tryfinger ").expect("lookup should succeed");
    assert_eq!(found, id);
    // the entry found is whitespace-equal to the query
    let text = get_message(&reg, found).unwrap();
    assert!(normalized_is_equal(&text, "  Tryfinger "));
    assert_eq!(find_by_text(&reg, "no such text"), None);
}

#[test]
fn message_wide_encodes_utf16() {
    let mut reg = MessageRegistry::new();
    let id = add_message(&mut reg, "hi");
    // would fail if the encoder handed its input through unchanged
    assert_eq!(message_wide(&reg, id), Some(vec![0x68u16, 0x69u16]));
    assert_eq!(message_wide(&reg, 999), None);
}

#[test]
fn message_wide_handles_surrogate_pairs() {
    let mut reg = MessageRegistry::new();
    let id = add_message(&mut reg, "\u{1F600}");
    assert_eq!(message_wide(&reg, id), Some(vec![0xD83D, 0xDE00]));
}

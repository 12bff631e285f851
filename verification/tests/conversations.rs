use chatstream::conversations::{
    conversation_history, conversation_id_from_nanos, conversation_metadata, format_iso_utc,
    generate_conversation_id, generate_title_from_message, get_iso_timestamp, new_conversation,
    sort_conversations_desc, str_le, u128_decimal, validate_conversation_id,
};
use chatstream::models::{Conversation, Message};

fn conv(id: &str, updated_at: &str, contents: &[&str]) -> Conversation {
    Conversation {
        id: id.to_string(),
        title: format!("title-{}", id),
        created_at: "2024-01-01T00:00:00Z".to_string(),
        updated_at: updated_at.to_string(),
        messages: contents
            .iter()
            .map(|c| Message {
                role: "user".to_string(),
                content: c.to_string(),
                timestamp: "ts".to_string(),
                complete: true,
            })
            .collect(),
    }
}

#[test]
fn valid_ids_pass() {
    assert!(validate_conversation_id("conv-123_abc").is_ok());
    assert!(validate_conversation_id("A1").is_ok());
}

#[test]
fn empty_id_is_rejected() {
    assert_eq!(
        validate_conversation_id("").unwrap_err(),
        "Conversation ID cannot be empty"
    );
}

#[test]
fn path_traversal_is_rejected() {
    assert_eq!(
        validate_conversation_id("../etc/passwd").unwrap_err(),
        "Invalid conversation ID: contains invalid characters"
    );
    assert!(validate_conversation_id("a b").is_err());
}

#[test]
fn decimal_rendering_is_exact() {
    assert_eq!(u128_decimal(0), "0");
    assert_eq!(u128_decimal(7), "7");
    assert_eq!(u128_decimal(1234567890), "1234567890");
    assert_eq!(u128_decimal(u128::MAX), u128::MAX.to_string());
}

#[test]
fn conversation_ids_have_the_conv_prefix() {
    assert_eq!(conversation_id_from_nanos(42), "conv-42");
    assert!(generate_conversation_id().starts_with("conv-"));
}

#[test]
fn iso_timestamp_format() {
    assert_eq!(format_iso_utc(0), "1970-01-01T00:00:00Z");
    assert_eq!(format_iso_utc(1700000000), "2023-11-14T22:13:20Z");
    let now = get_iso_timestamp();
    assert_eq!(now.len(), 20);
    assert!(now.ends_with('Z'));
}

#[test]
fn titles_are_trimmed_and_truncated() {
    assert_eq!(generate_title_from_message("  hello  "), "hello");
    let long = "x".repeat(60);
    let title = generate_title_from_message(&long);
    assert_eq!(title, format!("{}...", "x".repeat(50)));
    let exactly_fifty = "y".repeat(50);
    assert_eq!(generate_title_from_message(&exactly_fifty), exactly_fifty);
}

#[test]
fn metadata_previews_last_message() {
    let c = conv("a", "2024-02-02T00:00:00Z", &["first", "second"]);
    let m = conversation_metadata(&c);
    assert_eq!(m.id, "a");
    assert_eq!(m.title, "title-a");
    assert_eq!(m.timestamp, "2024-02-02T00:00:00Z");
    assert_eq!(m.message_count, 2);
    assert_eq!(m.last_message, "second");

    let long = "z".repeat(150);
    let c2 = conv("b", "ts", &[&long]);
    let m2 = conversation_metadata(&c2);
    assert_eq!(m2.last_message, format!("{}...", "z".repeat(100)));

    let c3 = conv("c", "ts", &[]);
    let m3 = conversation_metadata(&c3);
    assert_eq!(m3.last_message, "");
}

#[test]
fn history_maps_every_conversation() {
    let cs = vec![conv("a", "1", &["x"]), conv("b", "2", &[])];
    let h = conversation_history(&cs);
    assert_eq!(h.len(), 2);
    assert_eq!(h[0].id, "a");
    assert_eq!(h[1].id, "b");
}

#[test]
fn lexicographic_compare() {
    assert!(str_le("2024-01-01", "2024-01-02"));
    assert!(!str_le("2024-01-02", "2024-01-01"));
    assert!(str_le("abc", "abc"));
    assert!(str_le("ab", "abc"));
}

#[test]
fn sort_puts_most_recent_first() {
    let cs = vec![
        conv("old", "2024-01-01T00:00:00Z", &[]),
        conv("new", "2024-03-01T00:00:00Z", &[]),
        conv("mid", "2024-02-01T00:00:00Z", &[]),
    ];
    let sorted = sort_conversations_desc(cs);
    let ids: Vec<&str> = sorted.iter().map(|c| c.id.as_str()).collect();
    assert_eq!(ids, vec!["new", "mid", "old"]);
}

#[test]
fn sort_keeps_equal_keys() {
    let cs = vec![
        conv("a", "2024-01-01T00:00:00Z", &[]),
        conv("b", "2024-01-01T00:00:00Z", &[]),
        conv("c", "2024-02-01T00:00:00Z", &[]),
    ];
    let sorted = sort_conversations_desc(cs);
    assert_eq!(sorted.len(), 3);
    assert_eq!(sorted[0].id, "c");
    let mut tail: Vec<&str> = sorted[1..].iter().map(|c| c.id.as_str()).collect();
    tail.sort();
    assert_eq!(tail, vec!["a", "b"]);
}

#[test]
fn fresh_conversations_carry_the_first_message() {
    let c = new_conversation(
        "conv-9".to_string(),
        "a title".to_string(),
        "2024-05-05T05:05:05Z".to_string(),
        "first words".to_string(),
    );
    assert_eq!(c.id, "conv-9");
    assert_eq!(c.title, "a title");
    assert_eq!(c.created_at, c.updated_at);
    assert_eq!(c.messages.len(), 1);
    assert_eq!(c.messages[0].role, "user");
    assert_eq!(c.messages[0].content, "first words");
    assert!(c.messages[0].complete);
}

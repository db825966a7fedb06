use klippo::model::{hash_bytes, make_preview, millis_to_timestamp, now_ms, Entry, EntryKind, PREVIEW_MAX_CHARS};

#[test]
fn identical_text_has_identical_id() {
    assert_eq!(Entry::new_text("hi", 1).id, Entry::new_text("hi", 9).id);
    assert_ne!(Entry::new_text("hi", 1).id, Entry::new_text("ho", 1).id);
}

#[test]
fn preview_flattens_and_truncates() {
    assert_eq!(make_preview("  a\n\tb   c "), "a b c");
    let long = "x".repeat(500);
    let p = make_preview(&long);
    assert!(p.ends_with('…'));
    assert_eq!(p.chars().count(), PREVIEW_MAX_CHARS + 1);
}

#[test]
fn preview_edge_cases() {
    assert_eq!(make_preview(""), "");
    assert_eq!(make_preview(" \n\t "), "");
    // Unicode whitespace (no-break space, ideographic space) also separates words.
    assert_eq!(make_preview("a\u{a0}\u{3000}b"), "a b");
    // Exactly the limit: no ellipsis.
    let exact = "y".repeat(PREVIEW_MAX_CHARS);
    assert_eq!(make_preview(&exact), exact);
    let over = "é".repeat(PREVIEW_MAX_CHARS + 1);
    let p = make_preview(&over);
    assert_eq!(p.chars().count(), PREVIEW_MAX_CHARS + 1);
    assert!(p.starts_with("éé"));
}

#[test]
fn hash_is_lowercase_blake3_hex() {
    assert_eq!(
        hash_bytes(b""),
        "af1349b9f5f9a1a6a0404dea36dcc9499bcb25c9adc112b7cc9a93cae41f3262"
    );
    assert_eq!(
        hash_bytes(b"abc"),
        "6437b3ac38465133ffb63b75273a8db548c558465d79db03fd359c6cd5bd9d85"
    );
    assert_eq!(Entry::new_text("abc", 0).id, hash_bytes(b"abc"));
}

#[test]
fn text_entry_fields() {
    let e = Entry::new_text("  Hello\nWorld ", 42);
    assert_eq!(e.kind, EntryKind::Text);
    assert_eq!(e.text.as_deref(), Some("  Hello\nWorld "));
    assert_eq!(e.preview, "Hello World");
    assert_eq!(e.timestamp_ms, 42);
    assert!(!e.pinned);
    assert!(e.image_path.is_none() && e.thumb_path.is_none());
    assert_eq!(e.id.len(), 64);
}

#[test]
fn image_entry_fields() {
    let e = Entry::new_image(
        "abc".into(),
        "/i/abc.png".into(),
        "/t/abc.png".into(),
        1920,
        1080,
        7,
    );
    assert_eq!(e.preview, "Imagem 1920×1080");
    assert_eq!(e.kind, EntryKind::Image);
    assert_eq!(e.id, "abc");
    assert!(e.text.is_none());
    assert_eq!(e.image_path.as_deref(), Some("/i/abc.png"));
    assert_eq!(e.thumb_path.as_deref(), Some("/t/abc.png"));
    let d = e.duplicate();
    assert_eq!(d.preview, e.preview);
    assert_eq!(
        Entry::new_image("z".into(), "a".into(), "b".into(), 0, 4294967295, 0).preview,
        "Imagem 0×4294967295"
    );
}

#[test]
fn timestamps() {
    assert_eq!(millis_to_timestamp(None), 0);
    assert_eq!(millis_to_timestamp(Some(1_700_000_000_000)), 1_700_000_000_000);
    assert!(now_ms() > 1_600_000_000_000);
}

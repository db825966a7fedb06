use klippo::model::Entry;
use klippo::search::filter;

#[test]
fn empty_query_returns_all() {
    let entries = vec![Entry::new_text("a", 1), Entry::new_text("b", 2)];
    assert_eq!(filter(&entries, "").len(), 2);
    assert_eq!(filter(&entries, "   ").len(), 2);
}

#[test]
fn matches_case_insensitive_substring() {
    let entries = vec![
        Entry::new_text("Hello World", 1),
        Entry::new_text("foobar", 2),
    ];
    let r = filter(&entries, "hello");
    assert_eq!(r.len(), 1);
    assert_eq!(r[0].text.as_deref(), Some("Hello World"));
    assert_eq!(filter(&entries, "BAR").len(), 1);
    assert_eq!(filter(&entries, "zzz").len(), 0);
}

#[test]
fn search_checks_full_text_and_image_previews() {
    let long = format!("{}needle", "x ".repeat(300));
    let entries = vec![
        Entry::new_text(&long, 1),
        Entry::new_image("h".into(), "/i".into(), "/t".into(), 10, 20, 2),
        Entry::new_text("ÄBC", 3),
    ];
    // The needle is past the preview's cut but inside the full text.
    assert_eq!(filter(&entries, "NEEDLE").len(), 1);
    let imgs = filter(&entries, "  imagem 10 ");
    assert_eq!(imgs.len(), 1);
    assert_eq!(imgs[0].id, "h");
    // Unicode lowercasing on both sides.
    assert_eq!(filter(&entries, "äb").len(), 1);
    // Order is preserved.
    let all = filter(&entries, "");
    assert_eq!(all[0].timestamp_ms, 1);
    assert_eq!(all[2].timestamp_ms, 3);
}

#[test]
fn narrowing_the_query_never_adds_results() {
    let entries = vec![
        Entry::new_text("hello", 1),
        Entry::new_text("help", 2),
        Entry::new_text("other", 3),
    ];
    let wide: Vec<String> = filter(&entries, "he").iter().map(|e| e.id.clone()).collect();
    let narrow: Vec<String> = filter(&entries, " HEL").iter().map(|e| e.id.clone()).collect();
    let narrower: Vec<String> = filter(&entries, "hell").iter().map(|e| e.id.clone()).collect();
    assert_eq!(wide.len(), 3); // "other" holds "he" too
    assert_eq!(narrow.len(), 2);
    assert_eq!(narrower, vec![entries[0].id.clone()]);
    assert!(narrow.iter().all(|id| wide.contains(id)));
}

use klippo::actions::OutputMode;
use klippo::ui::{alt_shortcut_row, fit_height_px, row_index_label};
use klippo::qr::{qr_rgba, render_qr};
use klippo::client::feed_text_wanted;
use klippo::config::General;
use klippo::daemon::{
    accept_text, command_follow_up, command_output_text, copied_text, entry_text,
    image_capture_allowed, ingest_text, promote_existing, replace_entry_text, select_entry,
    restore_on_clear, sync_target, text_payload, waits_for_output, ClipboardPayload, FollowUp,
};
use klippo::dbus::{to_dbus_entry, BUS_NAME, OBJECT_PATH};
use klippo::model::{Entry, Source};
use klippo::paths::{config_dir, config_path, data_dir, db_path, images_dir, png_path, thumbs_dir};
use klippo::setup::{register_path, release_binding, toggle_command, KLIPPO_KB_PATH, SUPER_V};
use klippo::store::Store;
use klippo::ui::font_css;

#[test]
fn text_capture_filtering() {
    let g = General::default();
    assert_eq!(accept_text(&g, "  hi  ", Source::Clipboard), Some("hi".to_string()));
    assert_eq!(accept_text(&g, "hi", Source::Primary), None, "PRIMARY ignored");
    assert_eq!(accept_text(&g, " \n ", Source::Clipboard), None);
    let mut g2 = g;
    g2.strip_whitespace = false;
    g2.ignore_selection = false;
    assert_eq!(accept_text(&g2, " x ", Source::Primary), Some(" x ".to_string()));
}

#[test]
fn ingest_and_edit_flow() {
    let mut g = General::default();
    g.max_items = 2;
    let mut s = Store::open_in_memory().unwrap();
    let (a, gone) = ingest_text(&mut s, &g, " one ", Source::Clipboard, 1).unwrap().unwrap();
    assert_eq!(a.text.as_deref(), Some("one"));
    assert!(gone.is_empty());
    assert!(ingest_text(&mut s, &g, "x", Source::Primary, 2).unwrap().is_none());
    ingest_text(&mut s, &g, "two", Source::Clipboard, 3).unwrap();
    let (_, gone) = ingest_text(&mut s, &g, "three", Source::Clipboard, 4).unwrap().unwrap();
    assert_eq!(gone.len(), 1);
    assert_eq!(gone[0].text.as_deref(), Some("one"));

    let three = Entry::new_text("three", 0).id;
    let rep = replace_entry_text(&mut s, 2, &three, "THREE", 5).unwrap();
    assert_eq!(rep.new_id, Entry::new_text("THREE", 0).id);
    assert_eq!(rep.removed.unwrap().text.as_deref(), Some("three"));
    // Inserting the edit pushed "two" out of the two-entry history.
    assert_eq!(rep.pruned.len(), 1);
    assert_eq!(rep.pruned[0].text.as_deref(), Some("two"));
    assert_eq!(s.count().unwrap(), 1);
    ingest_text(&mut s, &g, "two", Source::Clipboard, 7).unwrap();
    assert!(replace_entry_text(&mut s, 2, &rep.new_id, "", 6).is_none());
    assert_eq!(entry_text(&s, &rep.new_id).as_deref(), Some("THREE"));

    let two = Entry::new_text("two", 0).id;
    assert!(matches!(select_entry(&mut s, &two, 10), Some(ClipboardPayload::Text(t)) if t == "two"));
    assert_eq!(s.list(5).unwrap()[0].id, two);
    assert!(select_entry(&mut s, "missing", 11).is_none());
    assert!(promote_existing(&mut s, &two, 12).is_some());
    assert!(promote_existing(&mut s, "missing", 12).is_none());
}

#[test]
fn image_capture_rules() {
    let mut g = General::default();
    assert!(!image_capture_allowed(&g, Source::Clipboard));
    g.ignore_images = false;
    assert!(image_capture_allowed(&g, Source::Clipboard));
    assert!(!image_capture_allowed(&g, Source::Primary));
    g.selection_text_only = false;
    assert!(!image_capture_allowed(&g, Source::Primary), "mouse selections are ignored");
    g.ignore_selection = false;
    assert!(image_capture_allowed(&g, Source::Primary));
    g.selection_text_only = true;
    assert!(!image_capture_allowed(&g, Source::Primary));
}

#[test]
fn payloads_and_wire_form() {
    let e = Entry::new_text("olá", 3);
    let (mime, bytes) = text_payload(&e).unwrap();
    assert_eq!(mime, "text/plain;charset=utf-8");
    assert_eq!(bytes, "olá".as_bytes());
    let img = Entry::new_image("h".into(), "/i.png".into(), "/t.png".into(), 1, 2, 4);
    assert!(text_payload(&img).is_none());
    let d = to_dbus_entry(img);
    assert_eq!(d.kind, "image");
    assert_eq!(d.thumb_path, "/t.png");
    assert_eq!(d.preview, "Imagem 1×2");
    let d = to_dbus_entry(e);
    assert_eq!(d.kind, "text");
    assert_eq!(d.thumb_path, "");
    assert_eq!(d.timestamp_ms, 3);
    assert_eq!(BUS_NAME, "org.klippo.Daemon");
    assert_eq!(OBJECT_PATH, "/org/klippo/Daemon");
    assert_eq!(command_output_text("  out\n"), Some("out".to_string()));
    assert_eq!(command_output_text(" \n"), None);
}

#[test]
fn feed_skips_blank_input() {
    assert!(feed_text_wanted(" x "));
    assert!(!feed_text_wanted(" \t\n"));
}

#[test]
fn keybinding_lists() {
    let (l, changed) = release_binding(
        vec![SUPER_V.to_string(), "<Super>m".to_string(), SUPER_V.to_string()],
        SUPER_V,
    );
    assert!(changed);
    assert_eq!(l, vec!["<Super>m".to_string()]);
    let (l, changed) = release_binding(vec!["<Super>m".to_string()], SUPER_V);
    assert!(!changed);
    assert_eq!(l, vec!["<Super>m".to_string()]);

    let (l, changed) = register_path(vec![], KLIPPO_KB_PATH);
    assert!(changed);
    let (l2, changed) = register_path(l.clone(), KLIPPO_KB_PATH);
    assert!(!changed);
    assert_eq!(l, l2);
    assert_eq!(toggle_command("/usr/bin/klippo"), "/usr/bin/klippo toggle");
}

#[test]
fn font_css_strips_quotes() {
    assert_eq!(
        font_css("JetBrains Mono"),
        ".klippo-preview, .klippo-index { font-family: \"JetBrains Mono\", monospace; }"
    );
    assert_eq!(
        font_css("Evil\"; } *{"),
        ".klippo-preview, .klippo-index { font-family: \"Evil; } *{\", monospace; }"
    );
}

#[test]
fn paths_end_in_their_names() {
    if let Some(p) = config_path() {
        assert!(p.ends_with("/klippo/config.toml"));
    }
    if let Some(p) = db_path() {
        assert!(p.ends_with("/klippo/history.db"));
    }
    if let Some(p) = images_dir() {
        assert!(p.ends_with("/klippo/images"));
    }
    if let Some(p) = thumbs_dir() {
        assert!(p.ends_with("/klippo/thumbs"));
    }
    assert_eq!(png_path("/d", "abc"), "/d/abc.png");
}

#[test]
fn project_directories_are_named_klippo() {
    if let Some(d) = data_dir() {
        assert!(d.ends_with("/klippo"));
        assert_eq!(db_path(), Some(format!("{d}/history.db")));
    }
    if let Some(d) = config_dir() {
        assert!(d.ends_with("/klippo"));
        assert_eq!(config_path(), Some(format!("{d}/config.toml")));
    }
}

#[test]
fn popup_geometry() {
    assert_eq!(fit_height_px(0, 12), 64);
    assert_eq!(fit_height_px(3, 12), 3 * 38);
    assert_eq!(fit_height_px(30, 12), 12 * 38);
    assert_eq!(fit_height_px(5, 0), 38, "at least one row");
    assert_eq!(row_index_label(0), "1");
    assert_eq!(row_index_label(8), "9");
    assert_eq!(row_index_label(9), "");
    assert_eq!(alt_shortcut_row('1'), Some(0));
    assert_eq!(alt_shortcut_row('9'), Some(8));
    assert_eq!(alt_shortcut_row('0'), None);
    assert_eq!(alt_shortcut_row('x'), None);
}

#[test]
fn qr_codes_are_painted_with_a_quiet_zone() {
    // A 1x1 "code" with its single module dark: 9 modules of 8 px per side.
    let (side, px) = qr_rgba(1, &[true]);
    assert_eq!(side, 72);
    assert_eq!(px.len(), 72 * 72 * 4);
    let at = |x: usize, y: usize| &px[(y * side + x) * 4..(y * side + x) * 4 + 4];
    assert_eq!(at(0, 0), &[255, 255, 255, 255]);
    assert_eq!(at(32, 32), &[0, 0, 0, 255]);
    assert_eq!(at(39, 39), &[0, 0, 0, 255]);
    assert_eq!(at(40, 39), &[255, 255, 255, 255]);
    let (side, px) = render_qr("https://example.com").unwrap();
    // Version 2 (25 modules) for this text: (25 + 8) * 8 pixels per side.
    assert_eq!(side, 264);
    assert_eq!(px.len(), side * side * 4);
    // The top-left finder pattern starts right after the quiet zone.
    assert_eq!(&px[(32 * side + 32) * 4..(32 * side + 32) * 4 + 4], &[0, 0, 0, 255]);
    assert!(render_qr(&"x".repeat(5000)).is_none(), "too long to encode");
}

#[test]
fn selecting_an_image_entry_copies_its_file() {
    let mut s = Store::open_in_memory().unwrap();
    let img = Entry::new_image("h".into(), "/i/h.png".into(), "/t/h.png".into(), 1, 2, 4);
    s.upsert(&img, 25).unwrap();
    assert!(matches!(
        select_entry(&mut s, "h", 9),
        Some(ClipboardPayload::ImageFile(p)) if p == "/i/h.png"
    ));
    assert_eq!(s.get("h").unwrap().unwrap().timestamp_ms, 9);
}

#[test]
fn command_output_follow_ups() {
    assert!(!waits_for_output(OutputMode::Ignore));
    assert!(waits_for_output(OutputMode::NewEntry));
    assert!(waits_for_output(OutputMode::ReplaceClipboard));
    assert!(matches!(command_follow_up(OutputMode::Ignore, "x"), FollowUp::Nothing));
    assert!(matches!(command_follow_up(OutputMode::NewEntry, " \n"), FollowUp::Nothing));
    assert!(matches!(command_follow_up(OutputMode::NewEntry, " a b\n"), FollowUp::Store(t) if t == "a b"));
    assert!(matches!(
        command_follow_up(OutputMode::ReplaceClipboard, "\tout\n"),
        FollowUp::StoreAndCopy(t) if t == "out"
    ));
    let fs = vec![
        FollowUp::StoreAndCopy("first".into()),
        FollowUp::Store("kept".into()),
        FollowUp::StoreAndCopy("last".into()),
        FollowUp::Nothing,
    ];
    assert_eq!(copied_text(&fs).as_deref(), Some("last"));
    assert_eq!(copied_text(&[FollowUp::Store("x".into())]), None);
    assert_eq!(copied_text(&[]), None);
}

#[test]
fn cleared_clipboard_gets_the_top_entry_back() {
    let mut g = General::default();
    let mut s = Store::open_in_memory().unwrap();
    assert!(restore_on_clear(&g, &s, Source::Clipboard).is_none(), "empty history");
    s.upsert(&Entry::new_text("old", 1), 25).unwrap();
    s.upsert(&Entry::new_text("top", 2), 25).unwrap();
    assert!(matches!(
        restore_on_clear(&g, &s, Source::Clipboard),
        Some(ClipboardPayload::Text(t)) if t == "top"
    ));
    assert!(restore_on_clear(&g, &s, Source::Primary).is_none());
    g.prevent_empty_clipboard = false;
    assert!(restore_on_clear(&g, &s, Source::Clipboard).is_none());
}

#[test]
fn sync_copies_to_the_other_selection() {
    let mut g = General::default();
    assert_eq!(sync_target(&g, Source::Clipboard), None);
    g.sync_clipboards = true;
    assert_eq!(sync_target(&g, Source::Clipboard), Some(Source::Primary));
    assert_eq!(sync_target(&g, Source::Primary), Some(Source::Clipboard));
}

#[test]
fn ids_are_64_hex_characters() {
    let id = Entry::new_text("", 0).id;
    assert_eq!(id.len(), 64);
    assert!(id.chars().all(|c| c.is_ascii_hexdigit() && !c.is_ascii_uppercase()));
    assert_eq!(klippo::model::hash_bytes(&[1, 2, 3]).len(), 64);
}

#[test]
fn max_items_parsing() {
    let mut g = General::default();
    g.set_value("max_items", "4294967295");
    assert_eq!(g.max_items, 4294967295);
    g.set_value("max_items", "4294967296");
    assert_eq!(g.max_items, 4294967295, "overflow keeps the value");
    g.set_value("max_items", "12a");
    assert_eq!(g.max_items, 4294967295);
    g.set_value("max_items", "+");
    assert_eq!(g.max_items, 4294967295);
    g.set_value("max_items", "007");
    assert_eq!(g.max_items, 7);
}

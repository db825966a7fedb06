use klippo::model::Entry;
use klippo::store::Store;

fn text(t: &str, ts: i64) -> Entry {
    Entry::new_text(t, ts)
}

#[test]
fn dedup_promotes_existing_to_top() {
    let mut s = Store::open_in_memory().unwrap();
    s.upsert(&text("a", 1), 25).unwrap();
    s.upsert(&text("b", 2), 25).unwrap();
    s.upsert(&text("a", 3), 25).unwrap(); // same content as first, newer

    let list = s.list(25).unwrap();
    assert_eq!(list.len(), 2, "duplicate must not create a new row");
    assert_eq!(list[0].text.as_deref(), Some("a"), "promoted to top");
    assert_eq!(list[1].text.as_deref(), Some("b"));
}

#[test]
fn prune_enforces_max_items() {
    let mut s = Store::open_in_memory().unwrap();
    for i in 0..30 {
        s.upsert(&text(&format!("item{i}"), i), 25).unwrap();
    }
    assert_eq!(s.count().unwrap(), 25);
    let list = s.list(100).unwrap();
    assert_eq!(list[0].text.as_deref(), Some("item29"), "newest on top");
    assert_eq!(list.last().unwrap().text.as_deref(), Some("item5"));
}

#[test]
fn remove_and_clear() {
    let mut s = Store::open_in_memory().unwrap();
    let a = text("x", 1);
    s.upsert(&a, 25).unwrap();
    s.upsert(&text("y", 2), 25).unwrap();

    assert!(s.remove(&a.id).unwrap().is_some());
    assert!(
        s.remove(&a.id).unwrap().is_none(),
        "second remove is a no-op"
    );
    assert_eq!(s.count().unwrap(), 1);

    let cleared = s.clear().unwrap();
    assert_eq!(cleared.len(), 1);
    assert_eq!(s.count().unwrap(), 0);
}

// --- further cases ---

#[test]
fn upsert_returns_pruned_in_order() {
    let mut s = Store::open_in_memory().unwrap();
    for i in 0..3 {
        assert!(s.upsert(&text(&format!("e{i}"), i), 3).unwrap().is_empty());
    }
    let gone = s.upsert(&text("new", 10), 2).unwrap();
    let names: Vec<_> = gone.iter().map(|e| e.text.clone().unwrap()).collect();
    assert_eq!(names, vec!["e1".to_string(), "e0".to_string()]);
    assert_eq!(s.count().unwrap(), 2);
    // A limit of zero empties the history, the new entry included.
    let gone = s.upsert(&text("z", 11), 0).unwrap();
    assert_eq!(gone.len(), 3);
    assert_eq!(s.count().unwrap(), 0);
}

#[test]
fn upsert_of_existing_keeps_its_fields_but_takes_new_time_and_preview() {
    let mut s = Store::open_in_memory().unwrap();
    let mut first = text("same", 1);
    first.pinned = true;
    s.upsert(&first, 25).unwrap();
    let mut again = text("same", 5);
    again.preview = "new preview".into();
    s.upsert(&again, 25).unwrap();
    let got = s.get(&first.id).unwrap().unwrap();
    assert!(got.pinned, "existing fields are kept");
    assert_eq!(got.timestamp_ms, 5);
    assert_eq!(got.preview, "new preview");
    assert_eq!(s.count().unwrap(), 1);
}

#[test]
fn pinned_entries_stay_on_top() {
    let mut s = Store::open_in_memory().unwrap();
    let mut pinned = text("pin", 1);
    pinned.pinned = true;
    s.upsert(&pinned, 25).unwrap();
    s.upsert(&text("newer", 100), 25).unwrap();
    let list = s.list(25).unwrap();
    assert_eq!(list[0].text.as_deref(), Some("pin"));
    assert_eq!(list[1].text.as_deref(), Some("newer"));
    // list honours its limit
    assert_eq!(s.list(1).unwrap().len(), 1);
    assert_eq!(s.list(0).unwrap().len(), 0);
}

#[test]
fn touch_promotes_and_get_finds() {
    let mut s = Store::open_in_memory().unwrap();
    let a = text("a", 1);
    s.upsert(&a, 25).unwrap();
    s.upsert(&text("b", 2), 25).unwrap();
    s.touch(&a.id, 9).unwrap();
    let list = s.list(25).unwrap();
    assert_eq!(list[0].id, a.id);
    assert_eq!(list[0].timestamp_ms, 9);
    // touching an unknown id changes nothing
    s.touch("nope", 50).unwrap();
    assert_eq!(s.list(25).unwrap()[0].id, a.id);
    assert!(s.get("nope").unwrap().is_none());
}

#[test]
fn restore_rebuilds_the_order() {
    let rows = vec![text("old", 1), text("new", 5), text("mid", 3)];
    let s = Store::restore(rows);
    let list = s.list(10).unwrap();
    let names: Vec<_> = list.iter().map(|e| e.text.clone().unwrap()).collect();
    assert_eq!(names, vec!["new", "mid", "old"]);
}

#[test]
fn read_after_write_finds_the_new_entry() {
    let mut s = Store::open_in_memory().unwrap();
    s.upsert(&text("a", 1), 1).unwrap();
    let b = text("b", 2);
    s.upsert(&b, 1).unwrap();
    let got = s.get(&b.id).unwrap().unwrap();
    assert_eq!(got.text.as_deref(), Some("b"));
    assert_eq!(got.timestamp_ms, 2);
    assert_eq!(s.count().unwrap(), 1);
}

#[test]
fn restore_of_a_listed_history_gives_it_back() {
    let mut s = Store::open_in_memory().unwrap();
    for i in 0..5 {
        s.upsert(&text(&format!("r{i}"), i), 25).unwrap();
    }
    let rows = s.list(25).unwrap();
    let back = Store::restore(s.list(25).unwrap()).list(25).unwrap();
    let ids: Vec<_> = rows.iter().map(|e| e.id.clone()).collect();
    let back_ids: Vec<_> = back.iter().map(|e| e.id.clone()).collect();
    assert_eq!(ids, back_ids);
}

#[test]
fn pinning_moves_an_entry_above_newer_ones() {
    let mut s = Store::open_in_memory().unwrap();
    let a = text("a", 1);
    s.upsert(&a, 25).unwrap();
    s.upsert(&text("b", 2), 25).unwrap();
    s.set_pinned(&a.id, true).unwrap();
    let list = s.list(25).unwrap();
    assert_eq!(list[0].id, a.id);
    assert!(list[0].pinned);
    s.set_pinned(&a.id, false).unwrap();
    assert_eq!(s.list(25).unwrap()[1].id, a.id);
    s.set_pinned("nope", true).unwrap();
    assert_eq!(s.count().unwrap(), 2);
}

//! The D-Bus surface shared by the daemon, the CLI and the GNOME extension:
//! names, and the wire form of a history entry.

use vstd::prelude::*;

use crate::model::{Entry, EntryKind, EntryView};

verus! {

/// Well-known bus name the daemon owns.
pub const BUS_NAME: &'static str = "org.klippo.Daemon";

/// Object path hosting both interfaces.
pub const OBJECT_PATH: &'static str = "/org/klippo/Daemon";

/// Wire form of a history entry returned by `ListEntries` (D-Bus `(sssxb)`).
///
/// Carries just enough to render a row; full content is fetched on demand via
/// `GetEntryContent`.
#[derive(Debug, Clone)]
pub struct DbusEntry {
    /// Content-hash id.
    pub id: String,
    /// `"text"` or `"image"`.
    pub kind: String,
    /// One-line display preview.
    pub preview: String,
    /// Thumbnail path for image entries, or `""` when absent.
    pub thumb_path: String,
    /// Last-used time (unix ms) for the most-recent-first order.
    pub timestamp_ms: i64,
    pub pinned: bool,
}

/// The wire name of an entry kind.
pub open spec fn kind_name(k: EntryKind) -> Seq<char> {
    match k {
        EntryKind::Text => "text"@,
        EntryKind::Image => "image"@,
    }
}

/// The wire form of an entry, field by field.
pub open spec fn dbus_form(e: EntryView, d: DbusEntry) -> bool {
    &&& d.id@ == e.id
    &&& d.kind@ == kind_name(e.kind)
    &&& d.preview@ == e.preview
    &&& d.thumb_path@ == match e.thumb_path {
        Some(p) => p,
        None => Seq::<char>::empty(),
    }
    &&& d.timestamp_ms == e.timestamp_ms
    &&& d.pinned == e.pinned
}

/// Convert a history entry to its wire form.
pub fn to_dbus_entry(e: Entry) -> (d: DbusEntry)
    ensures
        dbus_form(e@, d),
{
    let kind = match e.kind {
        EntryKind::Text => "text".to_owned(),
        EntryKind::Image => "image".to_owned(),
    };
    let thumb_path = match e.thumb_path {
        Some(p) => p,
        None => String::new(),
    };
    DbusEntry {
        id: e.id,
        kind,
        preview: e.preview,
        thumb_path,
        timestamp_ms: e.timestamp_ms,
        pinned: e.pinned,
    }
}

} // verus!

use klippo::capture::image_data_to_png;
use klippo::error::KlippoError;
use klippo::capture::{
    backend_capabilities, backend_from_env, parse_source, source_str, BackendKind, NullSource,
    SelectionState, WaylandDataControlSource, X11Source,
};
use klippo::model::Source;

#[test]
fn source_roundtrip() {
    assert_eq!(parse_source(source_str(Source::Primary)), Source::Primary);
    assert_eq!(
        parse_source(source_str(Source::Clipboard)),
        Source::Clipboard
    );
    assert_eq!(parse_source("anything-else"), Source::Clipboard);
}

#[test]
fn capabilities_match_backend_scope() {
    assert!(backend_capabilities(BackendKind::X11).primary);
    assert!(backend_capabilities(BackendKind::WaylandDataControl).sync_clipboards);
    assert!(!backend_capabilities(BackendKind::GnomeBridge).primary);
    assert!(!backend_capabilities(BackendKind::NoBackend).text);
}

#[test]
fn backend_detection() {
    assert_eq!(backend_from_env(Some(" x11 "), "wayland", "GNOME", true), BackendKind::X11);
    assert_eq!(
        backend_from_env(Some("wayland-dc"), "", "", false),
        BackendKind::WaylandDataControl
    );
    assert_eq!(backend_from_env(Some("gnome"), "", "", false), BackendKind::GnomeBridge);
    assert_eq!(backend_from_env(Some("none"), "x11", "", true), BackendKind::NoBackend);
    assert_eq!(
        backend_from_env(None, "wayland", "ubuntu:GNOME", false),
        BackendKind::GnomeBridge
    );
    assert_eq!(
        backend_from_env(None, "wayland", "KDE", false),
        BackendKind::WaylandDataControl
    );
    assert_eq!(backend_from_env(None, "x11", "", false), BackendKind::X11);
    assert_eq!(backend_from_env(None, "tty", "", true), BackendKind::X11);
    assert_eq!(backend_from_env(None, "tty", "", false), BackendKind::NoBackend);
}

#[test]
fn selection_changes_are_forwarded_once() {
    let mut st = SelectionState::new();
    assert!(st.observe_text("hello"));
    assert!(!st.observe_text("hello"), "same text twice is one event");
    assert!(!st.observe_text(""), "empty text is never forwarded");
    assert!(st.observe_image("h1"));
    assert!(st.last_text.is_empty());
    assert!(!st.observe_image("h1"));
    assert!(st.observe_text("hello"), "text after an image is new again");
    assert!(st.observe_empty());
    assert!(!st.observe_empty(), "cleared is reported once");
    assert!(st.observe_image("h1"));
}

#[test]
fn backend_names() {
    assert_eq!(NullSource.name(), "null");
    assert_eq!(X11Source::new().name(), "x11-poll");
    let w = WaylandDataControlSource::new();
    assert_eq!(w.name(), "wayland-data-control (wl-paste)");
    assert_eq!(
        WaylandDataControlSource::watches(),
        vec![("text/plain", "__feed"), ("image/png", "__feed-image")]
    );
}

#[test]
fn rgba_pixels_encode_as_png() {
    let png = image_data_to_png(2, 1, vec![255, 0, 0, 255, 0, 255, 0, 255]).unwrap();
    assert_eq!(&png[..8], b"\x89PNG\r\n\x1a\n");
    assert!(matches!(
        image_data_to_png(2, 2, vec![0; 15]),
        Err(KlippoError::InvalidImage)
    ));
    // The decoded capture reports its size and brings a PNG thumbnail.
    let (w, h, thumb) = klippo::daemon::decode_capture(&png).unwrap();
    assert_eq!((w, h), (2, 1));
    assert_eq!(&thumb[..4], b"\x89PNG");
    assert!(matches!(
        klippo::daemon::decode_capture(b"not an image"),
        Err(KlippoError::Image(_))
    ));
}

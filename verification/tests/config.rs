use klippo::config::{default_actions, ColorScheme, Config, General};

#[test]
fn defaults_match_klipper() {
    let c = Config::default();
    assert_eq!(c.general.max_items, 25);
    assert!(c.general.ignore_images);
    assert!(c.general.prevent_empty_clipboard);
    assert_eq!(c.ui.font_family, "JetBrains Mono");
    assert_eq!(c.actions.len(), 1);
}

#[test]
fn other_defaults() {
    let c = Config::default();
    assert_eq!(c.ui.popup_width, 380);
    assert_eq!(c.ui.popup_max_rows, 12);
    assert_eq!(c.ui.color_scheme, ColorScheme::System);
    assert_eq!(c.shortcuts.toggle, "<Super>v");
    assert_eq!(c.general.timeout_for_action_popups, 8);
    assert!(!c.general.sync_clipboards);
    let a = &default_actions()[0];
    assert_eq!(a.name, "Abrir URL");
    assert_eq!(a.commands[0].command, "xdg-open %s");
}

#[test]
fn config_values_as_strings() {
    let mut g = General::default();
    assert_eq!(g.get_value("max_items"), "25");
    assert_eq!(g.get_value("ignore_images"), "true");
    assert_eq!(g.get_value("sync_clipboards"), "false");
    assert_eq!(g.get_value("unknown"), "");

    g.set_value("max_items", "40");
    assert_eq!(g.max_items, 40);
    g.set_value("max_items", "+7");
    assert_eq!(g.max_items, 7);
    g.set_value("max_items", "-1");
    assert_eq!(g.max_items, 7, "unparsable values keep the setting");
    g.set_value("max_items", "4294967296");
    assert_eq!(g.max_items, 7, "overflow keeps the setting");
    g.set_value("ignore_images", "false");
    assert!(!g.ignore_images);
    g.set_value("ignore_images", "TRUE");
    assert!(!g.ignore_images, "bool parsing is exact");
    g.set_value("actions_enabled", "false");
    assert_eq!(g.get_value("actions_enabled"), "false");
    let before = g;
    g.set_value("popup_at_cursor", "true");
    assert_eq!(g, before, "unknown keys change nothing");
}

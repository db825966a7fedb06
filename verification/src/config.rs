//! Configuration mirroring Klipper's `klipperrc` options and defaults.
//!
//! The values here are plain data; reading and writing the TOML file happens
//! outside the library.

use vstd::prelude::*;

use crate::actions::{Action, ActionCommand, ActionCommandView, ActionView, OutputMode, actions_view};
use crate::text::{decimal, push_str, str_eq, u32_to_string};

verus! {

/// General behaviour, mirroring `klipperrc` keys.
#[derive(Debug, Clone, Copy, PartialEq, Eq, Structural)]
pub struct General {
    /// `MaxClipItems`: how many entries to keep.
    pub max_items: u32,
    /// `KeepClipboardContents`: persist history across restarts.
    pub keep_clipboard_contents: bool,
    /// `SyncClipboards`: keep PRIMARY and CLIPBOARD identical.
    pub sync_clipboards: bool,
    /// `IgnoreSelection`: don't record mouse selections (PRIMARY).
    pub ignore_selection: bool,
    /// `SelectionTextOnly`: only store text selections, never image selections.
    pub selection_text_only: bool,
    /// `IgnoreImages`: never store images.
    pub ignore_images: bool,
    /// `PreventEmptyClipboard`: restore the top item if the clipboard is cleared.
    pub prevent_empty_clipboard: bool,
    /// `StripWhiteSpace`: trim before storing and running actions.
    pub strip_whitespace: bool,
    /// Master on/off for the Actions feature.
    pub actions_enabled: bool,
    /// `ReplayActionInHistory`: re-trigger actions when picking an old item.
    pub replay_action_in_history: bool,
    /// `EnableMagicMimeActions`: suggest actions based on the value's type.
    pub enable_magic_mime_actions: bool,
    /// `TimeoutForActionPopups`: seconds the action menu stays open.
    pub timeout_for_action_popups: u32,
    /// `PopupMenuAtCursor`: open the popup at the cursor.
    pub popup_at_cursor: bool,
}

/// The default general settings (Klipper's, with 25 items).
pub open spec fn default_general() -> General {
    General {
        max_items: 25,
        keep_clipboard_contents: true,
        sync_clipboards: false,
        ignore_selection: true,
        selection_text_only: true,
        ignore_images: true,
        prevent_empty_clipboard: true,
        strip_whitespace: true,
        actions_enabled: true,
        replay_action_in_history: false,
        enable_magic_mime_actions: true,
        timeout_for_action_popups: 8,
        popup_at_cursor: false,
    }
}

impl Default for General {
    fn default() -> (r: General)
        ensures
            r == default_general(),
    {
        General {
            max_items: 25,
            keep_clipboard_contents: true,
            sync_clipboards: false,
            ignore_selection: true,
            selection_text_only: true,
            ignore_images: true,
            prevent_empty_clipboard: true,
            strip_whitespace: true,
            actions_enabled: true,
            replay_action_in_history: false,
            enable_magic_mime_actions: true,
            timeout_for_action_popups: 8,
            popup_at_cursor: false,
        }
    }
}

/// How the system should pick light vs dark.
#[derive(Debug, Clone, Copy, PartialEq, Eq, Structural)]
pub enum ColorScheme {
    /// Follow the desktop preference.
    System,
    Light,
    Dark,
}

impl Default for ColorScheme {
    fn default() -> (r: ColorScheme)
        ensures
            r == ColorScheme::System,
    {
        ColorScheme::System
    }
}

/// Appearance settings.
#[derive(Debug, Clone)]
pub struct Ui {
    pub font_family: String,
    pub color_scheme: ColorScheme,
    pub popup_width: u32,
    pub popup_max_rows: u32,
}

impl Default for Ui {
    fn default() -> (r: Ui)
        ensures
            r.font_family@ == "JetBrains Mono"@,
            r.color_scheme == ColorScheme::System,
            r.popup_width == 380,
            r.popup_max_rows == 12,
    {
        Ui {
            font_family: "JetBrains Mono".to_owned(),
            color_scheme: ColorScheme::System,
            popup_width: 380,
            popup_max_rows: 12,
        }
    }
}

/// Keyboard shortcut preferences (bound through the desktop).
#[derive(Debug, Clone)]
pub struct Shortcuts {
    pub toggle: String,
}

impl Default for Shortcuts {
    fn default() -> (r: Shortcuts)
        ensures
            r.toggle@ == "<Super>v"@,
    {
        Shortcuts { toggle: "<Super>v".to_owned() }
    }
}

/// Top-level configuration; missing parts of a configuration file fall back to
/// these defaults.
#[derive(Debug, Clone)]
pub struct Config {
    pub general: General,
    pub ui: Ui,
    pub shortcuts: Shortcuts,
    pub actions: Vec<Action>,
}

/// The single example action shipped on first run: open web links.
pub open spec fn default_actions_view() -> Seq<ActionView> {
    seq![
        ActionView {
            name: "Abrir URL"@,
            regex: r"^(https?://\S+)$"@,
            strip_whitespace: true,
            automatic: false,
            commands: seq![
                ActionCommandView {
                    command: "xdg-open %s"@,
                    output: OutputMode::Ignore,
                    shell: false,
                },
            ],
        },
    ]
}

/// A single safe example action shipped on first run.
pub fn default_actions() -> (r: Vec<Action>)
    ensures
        actions_view(r@) == default_actions_view(),
{
    let commands = vec![
        ActionCommand {
            command: "xdg-open %s".to_owned(),
            output: OutputMode::Ignore,
            shell: false,
        },
    ];
    let a = Action {
        name: "Abrir URL".to_owned(),
        regex: r"^(https?://\S+)$".to_owned(),
        strip_whitespace: true,
        automatic: false,
        commands,
    };
    assert(a@.commands =~= default_actions_view()[0].commands);
    let r = vec![a];
    assert(actions_view(r@) =~= default_actions_view());
    r
}

impl Default for Config {
    fn default() -> (r: Config)
        ensures
            r.general == default_general(),
            r.ui.font_family@ == "JetBrains Mono"@,
            r.ui.color_scheme == ColorScheme::System,
            r.ui.popup_width == 380,
            r.ui.popup_max_rows == 12,
            r.shortcuts.toggle@ == "<Super>v"@,
            actions_view(r.actions@) == default_actions_view(),
    {
        Config {
            general: General::default(),
            ui: Ui::default(),
            shortcuts: Shortcuts::default(),
            actions: default_actions(),
        }
    }
}

// ------------------------------------------------------------------------
// String access to general settings (used over D-Bus)
// ------------------------------------------------------------------------

/// `"true"` or `"false"`.
pub open spec fn bool_text(b: bool) -> Seq<char> {
    if b {
        "true"@
    } else {
        "false"@
    }
}

/// What `str::parse::<bool>` accepts: exactly `true` or `false`.
pub open spec fn parsed_bool(s: Seq<char>) -> Option<bool> {
    if s == "true"@ {
        Some(true)
    } else if s == "false"@ {
        Some(false)
    } else {
        None
    }
}

/// The value of a string of decimal digits.
pub open spec fn digits_value(d: Seq<char>) -> nat
    decreases d.len(),
{
    if d.len() == 0 {
        0
    } else {
        digits_value(d.drop_last()) * 10 + match crate::actions::digit_value(d.last()) {
            Some(v) => v,
            None => 0,
        }
    }
}

/// What `str::parse::<u32>` accepts: an optional `+` followed by at least one
/// decimal digit and nothing else, with a value that fits in a `u32`.
pub open spec fn parsed_u32(s: Seq<char>) -> Option<u32> {
    let d = unsigned_digits(s);
    if d.len() > 0 && all_digits(d) && digits_value(d) <= u32::MAX {
        Some(digits_value(d) as u32)
    } else {
        None
    }
}

/// `s` without a leading `+`.
pub open spec fn unsigned_digits(s: Seq<char>) -> Seq<char> {
    if s.len() > 0 && s[0] == '+' {
        s.drop_first()
    } else {
        s
    }
}

/// Every character of `d` is a decimal digit.
pub open spec fn all_digits(d: Seq<char>) -> bool {
    forall|i: int| 0 <= i < d.len() ==> (crate::actions::digit_value(#[trigger] d[i]) is Some)
}

/// The value of a prefix of a digit string never exceeds the value of the
/// whole string.
proof fn lemma_digits_value_prefix(d: Seq<char>, k: int)
    requires
        0 <= k <= d.len(),
    ensures
        digits_value(d.take(k)) <= digits_value(d),
    decreases d.len(),
{
    if k < d.len() {
        assert(d.drop_last().take(k) =~= d.take(k));
        lemma_digits_value_prefix(d.drop_last(), k);
    } else {
        assert(d.take(k) =~= d);
    }
}

/// Parse a `u32` as `str::parse::<u32>` does: an optional `+`, then at least
/// one decimal digit, with a value that fits.
fn parse_u32(s: &str) -> (r: Option<u32>)
    ensures
        r == parsed_u32(s@),
{
    let cs = crate::text::chars_of(s);
    let start: usize = if cs.len() > 0 && cs[0] == '+' {
        1
    } else {
        0
    };
    let ghost d = unsigned_digits(s@);
    assert(d == cs@.skip(start as int));
    if start >= cs.len() {
        return None;
    }
    let mut val: u64 = 0;
    let mut i: usize = start;
    while i < cs.len()
        invariant
            start <= i <= cs.len(),
            cs@ == s@,
            d == unsigned_digits(s@),
            d == cs@.skip(start as int),
            d.len() == cs.len() - start,
            val == digits_value(d.take(i - start)),
            val <= u32::MAX,
            forall|j: int| 0 <= j < i - start ==> (crate::actions::digit_value(#[trigger] d[j]) is Some),
        decreases cs.len() - i,
    {
        let k: usize = i - start;
        assert(d[k as int] == cs@[i as int]);
        assert(d.take(k + 1).drop_last() =~= d.take(k as int));
        assert(d.take(k + 1).last() == d[k as int]);
        let dig = match crate::actions::ascii_digit_value(cs[i]) {
            Some(v) => v as u64,
            None => {
                assert(crate::actions::digit_value(d[k as int]) is None);
                assert(!all_digits(d));
                return None;
            },
        };
        if val * 10 + dig > 0xffff_ffffu64 {
            proof {
                lemma_digits_value_prefix(d, k + 1);
            }
            return None;
        }
        val = val * 10 + dig;
        i = i + 1;
    }
    assert(d.take(d.len() as int) =~= d);
    Some(val as u32)
}

fn parse_bool(s: &str) -> (r: Option<bool>)
    ensures
        r == parsed_bool(s@),
{
    if str_eq(s, "true") {
        Some(true)
    } else if str_eq(s, "false") {
        Some(false)
    } else {
        None
    }
}

fn bool_string(b: bool) -> (r: String)
    ensures
        r@ == bool_text(b),
{
    if b {
        "true".to_owned()
    } else {
        "false".to_owned()
    }
}

/// The keys that can be read and written as strings.
pub open spec fn config_value(g: General, key: Seq<char>) -> Seq<char> {
    if key == "ignore_images"@ {
        bool_text(g.ignore_images)
    } else if key == "ignore_selection"@ {
        bool_text(g.ignore_selection)
    } else if key == "sync_clipboards"@ {
        bool_text(g.sync_clipboards)
    } else if key == "prevent_empty_clipboard"@ {
        bool_text(g.prevent_empty_clipboard)
    } else if key == "actions_enabled"@ {
        bool_text(g.actions_enabled)
    } else if key == "max_items"@ {
        decimal(g.max_items as nat)
    } else {
        seq![]
    }
}

/// `parsed` if present, else `current`.
pub open spec fn or_keep<T>(parsed: Option<T>, current: T) -> T {
    match parsed {
        Some(v) => v,
        None => current,
    }
}

/// `g` with the setting named `key` parsed from `value`; unknown keys and
/// values that do not parse leave `g` as it is.
pub open spec fn with_config_value(g: General, key: Seq<char>, value: Seq<char>) -> General {
    if key == "ignore_images"@ {
        General { ignore_images: or_keep(parsed_bool(value), g.ignore_images), ..g }
    } else if key == "ignore_selection"@ {
        General { ignore_selection: or_keep(parsed_bool(value), g.ignore_selection), ..g }
    } else if key == "sync_clipboards"@ {
        General { sync_clipboards: or_keep(parsed_bool(value), g.sync_clipboards), ..g }
    } else if key == "prevent_empty_clipboard"@ {
        General {
            prevent_empty_clipboard: or_keep(parsed_bool(value), g.prevent_empty_clipboard),
            ..g
        }
    } else if key == "actions_enabled"@ {
        General { actions_enabled: or_keep(parsed_bool(value), g.actions_enabled), ..g }
    } else if key == "max_items"@ {
        General { max_items: or_keep(parsed_u32(value), g.max_items), ..g }
    } else {
        g
    }
}

impl General {
    /// Read a setting as a string (empty for unknown keys).
    pub fn get_value(&self, key: &str) -> (r: String)
        ensures
            r@ == config_value(*self, key@),
    {
        if str_eq(key, "ignore_images") {
            bool_string(self.ignore_images)
        } else if str_eq(key, "ignore_selection") {
            bool_string(self.ignore_selection)
        } else if str_eq(key, "sync_clipboards") {
            bool_string(self.sync_clipboards)
        } else if str_eq(key, "prevent_empty_clipboard") {
            bool_string(self.prevent_empty_clipboard)
        } else if str_eq(key, "actions_enabled") {
            bool_string(self.actions_enabled)
        } else if str_eq(key, "max_items") {
            u32_to_string(self.max_items)
        } else {
            String::new()
        }
    }

    /// Write a setting parsed from a string; values that do not parse keep the
    /// current setting and unknown keys change nothing.
    #[verifier::rlimit(40)]
    pub fn set_value(&mut self, key: &str, value: &str)
        ensures
            *final(self) == with_config_value(*old(self), key@, value@),
    {
        if str_eq(key, "ignore_images") {
            self.ignore_images = match parse_bool(value) { Some(b) => b, None => self.ignore_images };
        } else if str_eq(key, "ignore_selection") {
            self.ignore_selection = match parse_bool(value) { Some(b) => b, None => self.ignore_selection };
        } else if str_eq(key, "sync_clipboards") {
            self.sync_clipboards = match parse_bool(value) { Some(b) => b, None => self.sync_clipboards };
        } else if str_eq(key, "prevent_empty_clipboard") {
            self.prevent_empty_clipboard = match parse_bool(value) {
                Some(b) => b,
                None => self.prevent_empty_clipboard,
            };
        } else if str_eq(key, "actions_enabled") {
            self.actions_enabled = match parse_bool(value) { Some(b) => b, None => self.actions_enabled };
        } else if str_eq(key, "max_items") {
            self.max_items = match parse_u32(value) { Some(n) => n, None => self.max_items };
        }
    }
}


/// Every character of a decimal rendering is a digit, and the digits read back
/// as the number.
pub proof fn lemma_decimal_digits(n: nat)
    ensures
        decimal(n).len() > 0,
        forall|i: int| 0 <= i < decimal(n).len() ==> (crate::actions::digit_value(
            #[trigger] decimal(n)[i],
        ) is Some),
        digits_value(decimal(n)) == n,
    decreases n,
{
    let c0 = crate::text::digit_char(n % 10);
    assert(crate::actions::digit_value(c0) == Some((n % 10) as nat));
    if n < 10 {
        assert(decimal(n) == seq![c0]);
        assert(seq![c0].drop_last() =~= Seq::<char>::empty());
        assert(digits_value(seq![c0]) == digits_value(Seq::<char>::empty()) * 10 + n);
    } else {
        lemma_decimal_digits(n / 10);
        let d = decimal(n / 10);
        let c = crate::text::digit_char(n % 10);
        assert(decimal(n) == d.push(c));
        assert(d.push(c).drop_last() =~= d);
        assert forall|i: int| 0 <= i < d.push(c).len() implies (crate::actions::digit_value(
            #[trigger] d.push(c)[i],
        ) is Some) by {
            if i < d.len() {
                assert(d.push(c)[i] == d[i]);
            }
        }
    }
}

/// Law: a setting written as the string the library reads it back as is
/// stored as that value: booleans as `true`/`false`, `max_items` in decimal.
pub proof fn law_set_then_get(g: General, key: Seq<char>, b: bool, n: u32)
    ensures
        (key == "ignore_images"@ || key == "ignore_selection"@ || key == "sync_clipboards"@
            || key == "prevent_empty_clipboard"@ || key == "actions_enabled"@) ==> config_value(
            with_config_value(g, key, bool_text(b)),
            key,
        ) == bool_text(b),
        key == "max_items"@ ==> with_config_value(g, key, decimal(n as nat)).max_items == n,
        key == "max_items"@ ==> config_value(with_config_value(g, key, decimal(n as nat)), key)
            == decimal(n as nat),
{
    reveal_strlit("true");
    reveal_strlit("false");
    assert(parsed_bool(bool_text(b)) == Some(b)) by {
        if !b {
            assert("false"@ != "true"@) by {
                assert("false"@[0] != "true"@[0]);
            }
        }
    }
    reveal_strlit("max_items");
    reveal_strlit("ignore_images");
    reveal_strlit("ignore_selection");
    reveal_strlit("sync_clipboards");
    reveal_strlit("prevent_empty_clipboard");
    reveal_strlit("actions_enabled");
    if key == "max_items"@ {
        assert(key != "ignore_images"@ && key != "ignore_selection"@ && key != "sync_clipboards"@
            && key != "prevent_empty_clipboard"@ && key != "actions_enabled"@) by {
            assert(key[0] == 'm');
        }
    }
    lemma_decimal_digits(n as nat);
    let d = decimal(n as nat);
    assert(d[0] != '+') by {
        assert(crate::actions::digit_value(d[0]) is Some);
    }
    assert(parsed_u32(d) == Some(n));
}

/// Law (settings by name): each key reads and writes the setting of the same
/// name. A value that parses sets exactly that field and leaves every other
/// field as it was; reading the key gives that field's value.
pub proof fn law_settings_by_name(g: General, v: Seq<char>)
    ensures
        config_value(g, "ignore_images"@) == bool_text(g.ignore_images),
        config_value(g, "ignore_selection"@) == bool_text(g.ignore_selection),
        config_value(g, "sync_clipboards"@) == bool_text(g.sync_clipboards),
        config_value(g, "prevent_empty_clipboard"@) == bool_text(g.prevent_empty_clipboard),
        config_value(g, "actions_enabled"@) == bool_text(g.actions_enabled),
        config_value(g, "max_items"@) == decimal(g.max_items as nat),
        parsed_bool(v) matches Some(b) ==> with_config_value(g, "ignore_images"@, v) == (General {
            ignore_images: b,
            ..g
        }),
        parsed_bool(v) matches Some(b) ==> with_config_value(g, "ignore_selection"@, v) == (General {
            ignore_selection: b,
            ..g
        }),
        parsed_bool(v) matches Some(b) ==> with_config_value(g, "sync_clipboards"@, v) == (General {
            sync_clipboards: b,
            ..g
        }),
        parsed_bool(v) matches Some(b) ==> with_config_value(g, "prevent_empty_clipboard"@, v) == (
        General { prevent_empty_clipboard: b, ..g }),
        parsed_bool(v) matches Some(b) ==> with_config_value(g, "actions_enabled"@, v) == (General {
            actions_enabled: b,
            ..g
        }),
        parsed_u32(v) matches Some(n) ==> with_config_value(g, "max_items"@, v) == (General {
            max_items: n,
            ..g
        }),
        parsed_bool(v) is None ==> with_config_value(g, "ignore_selection"@, v) == g,
{
    reveal_strlit("max_items");
    reveal_strlit("ignore_images");
    reveal_strlit("ignore_selection");
    reveal_strlit("sync_clipboards");
    reveal_strlit("prevent_empty_clipboard");
    reveal_strlit("actions_enabled");
    assert("ignore_selection"@ != "ignore_images"@) by {
        assert("ignore_selection"@[7] != "ignore_images"@[7]);
    }
    assert("sync_clipboards"@ != "ignore_images"@ && "sync_clipboards"@ != "ignore_selection"@) by {
        assert("sync_clipboards"@[0] != "ignore_images"@[0]);
    }
    assert("prevent_empty_clipboard"@ != "ignore_images"@ && "prevent_empty_clipboard"@
        != "ignore_selection"@ && "prevent_empty_clipboard"@ != "sync_clipboards"@) by {
        assert("prevent_empty_clipboard"@[0] != "ignore_images"@[0]);
        assert("prevent_empty_clipboard"@[0] != "sync_clipboards"@[0]);
    }
    assert("actions_enabled"@ != "ignore_images"@ && "actions_enabled"@ != "ignore_selection"@
        && "actions_enabled"@ != "sync_clipboards"@ && "actions_enabled"@
        != "prevent_empty_clipboard"@) by {
        assert("actions_enabled"@[0] != "ignore_images"@[0]);
        assert("actions_enabled"@[0] != "sync_clipboards"@[0]);
        assert("actions_enabled"@[0] != "prevent_empty_clipboard"@[0]);
    }
    assert("max_items"@ != "ignore_images"@ && "max_items"@ != "ignore_selection"@ && "max_items"@
        != "sync_clipboards"@ && "max_items"@ != "prevent_empty_clipboard"@ && "max_items"@
        != "actions_enabled"@) by {
        assert("max_items"@[0] != "ignore_images"@[0]);
        assert("max_items"@[0] != "sync_clipboards"@[0]);
        assert("max_items"@[0] != "prevent_empty_clipboard"@[0]);
        assert("max_items"@[0] != "actions_enabled"@[0]);
    }
}

} // verus!

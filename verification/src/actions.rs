//! Klipper-style regex "Actions".
//!
//! An action matches clipboard text against a regex and, on a match, can run
//! one or more commands. Command templates use Klipper's placeholders:
//! `%s`/`%0` = whole match, `%1`..`%9` = capture groups, `%%` = literal `%`.
//!
//! Execution is shell-free by default: the template is split into argv words
//! before substitution, so a clipboard value containing `;`, `&&`, spaces and
//! the like lands in a single argv slot and cannot inject extra commands.

use vstd::prelude::*;

use crate::error::KlippoError;
use crate::pattern::{
    captures, captures_view, compile, is_match, regex_captures, regex_compiles, regex_is_match,
    shell_split, shell_words_split, words_view,
};
use crate::text::{push_char, push_str, trim_str, trim_ws};

verus! {

/// What to do with a command's standard output.
#[derive(Debug, Clone, Copy, PartialEq, Eq, Structural)]
pub enum OutputMode {
    /// Discard output (fire-and-forget, e.g. `xdg-open`).
    Ignore,
    /// Replace the clipboard with the command's output.
    ReplaceClipboard,
    /// Add the command's output as a new history entry.
    NewEntry,
}

impl Default for OutputMode {
    fn default() -> (r: OutputMode)
        ensures
            r == OutputMode::Ignore,
    {
        OutputMode::Ignore
    }
}

/// One command belonging to an [`Action`].
#[derive(Debug, Clone)]
pub struct ActionCommand {
    /// Template with `%s`/`%0`..`%9` placeholders.
    pub command: String,
    pub output: OutputMode,
    /// Opt-in: run via `/bin/sh -c` (loses injection-safety).
    pub shell: bool,
}

/// A configured action: a regex plus the commands to offer on a match.
#[derive(Debug, Clone)]
pub struct Action {
    pub name: String,
    pub regex: String,
    pub strip_whitespace: bool,
    /// When true, the action menu pops up automatically on a match.
    pub automatic: bool,
    pub commands: Vec<ActionCommand>,
}

/// A successful regex match: `groups[0]` is the whole match, `groups[1..]` the
/// capture groups (groups that did not participate become empty strings).
#[derive(Debug, Clone)]
pub struct MatchResult {
    pub groups: Vec<String>,
}

/// A command resolved to a concrete program and argv, ready to spawn.
#[derive(Debug, Clone)]
pub struct PreparedCommand {
    pub program: String,
    pub args: Vec<String>,
    pub use_shell: bool,
    pub output: OutputMode,
}

/// The content of an [`ActionCommand`].
pub struct ActionCommandView {
    pub command: Seq<char>,
    pub output: OutputMode,
    pub shell: bool,
}

/// The content of an [`Action`].
pub struct ActionView {
    pub name: Seq<char>,
    pub regex: Seq<char>,
    pub strip_whitespace: bool,
    pub automatic: bool,
    pub commands: Seq<ActionCommandView>,
}

/// The content of a [`PreparedCommand`].
pub struct PreparedView {
    pub program: Seq<char>,
    pub args: Seq<Seq<char>>,
    pub use_shell: bool,
    pub output: OutputMode,
}

impl View for ActionCommand {
    type V = ActionCommandView;

    open spec fn view(&self) -> ActionCommandView {
        ActionCommandView { command: self.command@, output: self.output, shell: self.shell }
    }
}

impl View for Action {
    type V = ActionView;

    open spec fn view(&self) -> ActionView {
        ActionView {
            name: self.name@,
            regex: self.regex@,
            strip_whitespace: self.strip_whitespace,
            automatic: self.automatic,
            commands: self.commands@.map_values(|c: ActionCommand| c@),
        }
    }
}

/// The characters of each string.
pub open spec fn strings_view(v: Seq<String>) -> Seq<Seq<char>> {
    v.map_values(|s: String| s@)
}

impl View for MatchResult {
    type V = Seq<Seq<char>>;

    open spec fn view(&self) -> Seq<Seq<char>> {
        strings_view(self.groups@)
    }
}

impl View for PreparedCommand {
    type V = PreparedView;

    open spec fn view(&self) -> PreparedView {
        PreparedView {
            program: self.program@,
            args: strings_view(self.args@),
            use_shell: self.use_shell,
            output: self.output,
        }
    }
}

// ------------------------------------------------------------------------
// Placeholder substitution
// ------------------------------------------------------------------------

/// The value of an ASCII decimal digit.
pub open spec fn digit_value(c: char) -> Option<nat> {
    if c == '0' { Some(0) }
    else if c == '1' { Some(1) }
    else if c == '2' { Some(2) }
    else if c == '3' { Some(3) }
    else if c == '4' { Some(4) }
    else if c == '5' { Some(5) }
    else if c == '6' { Some(6) }
    else if c == '7' { Some(7) }
    else if c == '8' { Some(8) }
    else if c == '9' { Some(9) }
    else { None }
}

/// Group `i`, or the empty string when there is no such group.
pub open spec fn group_or_empty(groups: Seq<Seq<char>>, i: nat) -> Seq<char> {
    if i < groups.len() {
        groups[i as int]
    } else {
        seq![]
    }
}

/// The template `t` with its placeholders replaced, read left to right:
/// `%%` gives `%`, `%s` group 0, `%d` (a digit) group `d`, missing groups give
/// nothing, and any other `%` stays as it is.
pub open spec fn substituted(t: Seq<char>, groups: Seq<Seq<char>>) -> Seq<char>
    decreases t.len(),
{
    if t.len() == 0 {
        seq![]
    } else if t[0] != '%' {
        seq![t[0]] + substituted(t.drop_first(), groups)
    } else if t.len() >= 2 && t[1] == '%' {
        seq!['%'] + substituted(t.skip(2), groups)
    } else if t.len() >= 2 && t[1] == 's' {
        group_or_empty(groups, 0) + substituted(t.skip(2), groups)
    } else if t.len() >= 2 && digit_value(t[1]) is Some {
        group_or_empty(groups, digit_value(t[1])->0) + substituted(t.skip(2), groups)
    } else {
        seq!['%'] + substituted(t.drop_first(), groups)
    }
}

pub(crate) fn ascii_digit_value(c: char) -> (r: Option<usize>)
    ensures
        match digit_value(c) {
            Some(d) => r == Some(d as usize),
            None => r is None,
        },
{
    match c {
        '0' => Some(0),
        '1' => Some(1),
        '2' => Some(2),
        '3' => Some(3),
        '4' => Some(4),
        '5' => Some(5),
        '6' => Some(6),
        '7' => Some(7),
        '8' => Some(8),
        '9' => Some(9),
        _ => None,
    }
}

fn push_group(out: &mut String, groups: &[String], i: usize)
    ensures
        final(out)@ == old(out)@ + group_or_empty(strings_view(groups@), i as nat),
{
    if i < groups.len() {
        push_str(out, groups[i].as_str());
    } else {
        assert(old(out)@ + Seq::<char>::empty() =~= old(out)@);
    }
}

/// Substitute `%s`, `%0`..`%9` and `%%` in a single template string.
pub fn substitute(template: &str, groups: &[String]) -> (r: String)
    ensures
        r@ == substituted(template@, strings_view(groups@)),
{
    let ghost g = strings_view(groups@);
    let t = crate::text::chars_of(template);
    let n = t.len();
    let mut out = String::new();
    let mut i: usize = 0;
    assert(t@.skip(0) =~= t@);
    assert(out@ + substituted(t@, g) =~= substituted(t@, g));
    while i < n
        invariant
            n == t@.len(),
            i <= n,
            t@ == template@,
            g == strings_view(groups@),
            out@ + substituted(t@.skip(i as int), g) == substituted(t@, g),
        decreases n - i,
    {
        let ghost rest = t@.skip(i as int);
        let ghost before = out@;
        assert(rest[0] == t@[i as int]);
        assert(rest.drop_first() =~= t@.skip(i + 1));
        let c = t[i];
        if c != '%' {
            push_char(&mut out, c);
            assert(out@ + substituted(t@.skip(i + 1), g) =~= before + substituted(rest, g));
            i = i + 1;
        } else if i + 1 < n {
            let d = t[i + 1];
            assert(rest[1] == d);
            assert(rest.skip(2) =~= t@.skip(i + 2));
            if d == '%' {
                push_char(&mut out, '%');
                assert(out@ + substituted(t@.skip(i + 2), g) =~= before + substituted(rest, g));
                i = i + 2;
            } else if d == 's' {
                push_group(&mut out, groups, 0);
                assert(out@ + substituted(t@.skip(i + 2), g) =~= before + substituted(rest, g));
                i = i + 2;
            } else {
                match ascii_digit_value(d) {
                    Some(k) => {
                        push_group(&mut out, groups, k);
                        assert(out@ + substituted(t@.skip(i + 2), g) =~= before + substituted(
                            rest,
                            g,
                        ));
                        i = i + 2;
                    },
                    None => {
                        push_char(&mut out, '%');
                        assert(out@ + substituted(t@.skip(i + 1), g) =~= before + substituted(
                            rest,
                            g,
                        ));
                        i = i + 1;
                    },
                }
            }
        } else {
            push_char(&mut out, '%');
            assert(out@ + substituted(t@.skip(i + 1), g) =~= before + substituted(rest, g));
            i = i + 1;
        }
    }
    assert(t@.skip(n as int) =~= Seq::<char>::empty());
    assert(out@ + Seq::<char>::empty() =~= out@);
    out
}


// ------------------------------------------------------------------------
// Matching
// ------------------------------------------------------------------------

/// The text an action is matched against: trimmed when the action strips
/// whitespace.
pub open spec fn match_subject(a: ActionView, text: Seq<char>) -> Seq<char> {
    if a.strip_whitespace {
        trim_ws(text)
    } else {
        text
    }
}

/// Capture groups with the non-participating ones replaced by empty strings.
pub open spec fn groups_of(c: Seq<Option<Seq<char>>>) -> Seq<Seq<char>> {
    c.map_values(
        |o: Option<Seq<char>>|
            match o {
                Some(s) => s,
                None => Seq::<char>::empty(),
            },
    )
}

/// The groups of `a`'s match on `text`, or `None` when the regex does not match.
pub open spec fn action_match(a: ActionView, text: Seq<char>) -> Option<Seq<Seq<char>>> {
    match regex_captures(a.regex, match_subject(a, text)) {
        Some(c) => Some(groups_of(c)),
        None => None,
    }
}

/// The action's regex compiles and matches `text`.
pub open spec fn action_matches(a: ActionView, text: Seq<char>) -> bool {
    regex_compiles(a.regex) && action_match(a, text) is Some
}

/// The match result for a capture list: `None` without a match, otherwise the
/// groups with non-participating ones as empty strings.
pub fn match_from_captures(caps: Option<Vec<Option<String>>>) -> (r: Option<MatchResult>)
    ensures
        match captures_view(caps) {
            Some(c) => r matches Some(m) && m@ == groups_of(c),
            None => r is None,
        },
{
    match caps {
        None => None,
        Some(list) => {
            let mut groups: Vec<String> = Vec::new();
            let mut i: usize = 0;
            let ghost c = list@.map_values(|o: Option<String>| crate::model::opt_view(o));
            while i < list.len()
                invariant
                    i <= list.len(),
                    c == list@.map_values(|o: Option<String>| crate::model::opt_view(o)),
                    strings_view(groups@) == groups_of(c).take(i as int),
                decreases list.len() - i,
            {
                let g = match &list[i] {
                    Some(s) => s.clone(),
                    None => String::new(),
                };
                let ghost before = groups@;
                groups.push(g);
                assert(strings_view(groups@) =~= strings_view(before).push(g@));
                assert(groups_of(c).take(i + 1) =~= groups_of(c).take(i as int).push(
                    groups_of(c)[i as int],
                ));
                i = i + 1;
            }
            assert(groups_of(c).take(list.len() as int) =~= groups_of(c));
            Some(MatchResult { groups })
        },
    }
}

/// Test `text` against `action`. Returns the match groups when it matches, and
/// an error when the action's regex does not compile.
pub fn match_action(action: &Action, text: &str) -> (r: Result<Option<MatchResult>, KlippoError>)
    ensures
        r is Err <==> !regex_compiles(action@.regex),
        r matches Err(e) ==> e is Regex,
        r matches Ok(o) ==> match action_match(action@, text@) {
            Some(g) => o matches Some(m) && m@ == g,
            None => o is None,
        },
{
    let subject = if action.strip_whitespace {
        trim_str(text)
    } else {
        text
    };
    match compile(action.regex.as_str()) {
        Err(e) => Err(KlippoError::Regex(e)),
        Ok(p) => {
            let caps = captures(&p, subject);
            Ok(match_from_captures(caps))
        },
    }
}

// ------------------------------------------------------------------------
// Preparing commands
// ------------------------------------------------------------------------

/// Every word of `ws` with the placeholders substituted.
pub open spec fn substituted_all(ws: Seq<Seq<char>>, groups: Seq<Seq<char>>) -> Seq<Seq<char>> {
    ws.map_values(|w: Seq<char>| substituted(w, groups))
}

/// The command run through `/bin/sh -c` with the whole template substituted.
pub open spec fn shell_prepared(cmd: ActionCommandView, groups: Seq<Seq<char>>) -> PreparedView {
    PreparedView {
        program: "/bin/sh"@,
        args: seq!["-c"@, substituted(cmd.command, groups)],
        use_shell: true,
        output: cmd.output,
    }
}

/// The shell-free command for the template's words: the first word is the
/// program, the others its arguments, each substituted on its own.
pub open spec fn argv_prepared(
    cmd: ActionCommandView,
    groups: Seq<Seq<char>>,
    words: Seq<Seq<char>>,
) -> PreparedView {
    PreparedView {
        program: substituted(words[0], groups),
        args: substituted_all(words.drop_first(), groups),
        use_shell: false,
        output: cmd.output,
    }
}

/// `r` is what preparing `cmd` gives when its template splits into `words`
/// (`None`: an unclosed quote).
pub open spec fn prepared_from_split(
    cmd: ActionCommandView,
    groups: Seq<Seq<char>>,
    words: Option<Seq<Seq<char>>>,
    r: Result<PreparedCommand, KlippoError>,
) -> bool {
    match words {
        None => r matches Err(KlippoError::ActionParse(m)) && m@ == "missing closing quote"@,
        Some(ws) => if ws.len() == 0 {
            r matches Err(KlippoError::ActionParse(m)) && m@ == "empty command template"@
        } else {
            r matches Ok(p) && p@ == argv_prepared(cmd, groups, ws)
        },
    }
}

fn substitute_each(words: &[String], from: usize, groups: &[String]) -> (r: Vec<String>)
    requires
        from <= words.len(),
    ensures
        strings_view(r@) == substituted_all(strings_view(words@).skip(from as int), strings_view(groups@)),
{
    let mut out: Vec<String> = Vec::new();
    let mut i: usize = from;
    while i < words.len()
        invariant
            from <= i <= words.len(),
            strings_view(out@) == substituted_all(
                strings_view(words@).skip(from as int),
                strings_view(groups@),
            ).take(i - from),
        decreases words.len() - i,
    {
        let w = substitute(words[i].as_str(), groups);
        let ghost before = out@;
        out.push(w);
        assert(strings_view(out@) =~= strings_view(before).push(w@));
        assert(substituted_all(strings_view(words@).skip(from as int), strings_view(groups@)).take(
            i + 1 - from,
        ) =~= substituted_all(strings_view(words@).skip(from as int), strings_view(groups@)).take(
            i - from,
        ).push(substituted(words@[i as int]@, strings_view(groups@))));
        i = i + 1;
    }
    assert(substituted_all(strings_view(words@).skip(from as int), strings_view(groups@)).take(
        words.len() - from,
    ) =~= substituted_all(strings_view(words@).skip(from as int), strings_view(groups@)));
    out
}

/// Build the shell-free command from the template's words (or the splitting
/// error): the first word is the program, the rest its arguments, each word
/// substituted on its own so that matched text never spills into other words.
pub fn prepare_words(cmd: &ActionCommand, m: &MatchResult, words: Result<Vec<String>, String>) -> (r:
    Result<PreparedCommand, KlippoError>)
    ensures
        match words {
            Err(msg) => r matches Err(KlippoError::ActionParse(x)) && x@ == msg@,
            Ok(v) => if v@.len() == 0 {
                r matches Err(KlippoError::ActionParse(x)) && x@ == "empty command template"@
            } else {
                r matches Ok(p) && p@ == argv_prepared(cmd@, m@, strings_view(v@))
            },
        },
{
    match words {
        Err(msg) => Err(KlippoError::ActionParse(msg)),
        Ok(v) => {
            if v.len() == 0 {
                Err(KlippoError::ActionParse("empty command template".to_owned()))
            } else {
                let program = substitute(v[0].as_str(), &m.groups);
                let args = substitute_each(&v, 1, &m.groups);
                assert(strings_view(v@).skip(1) =~= strings_view(v@).drop_first());
                Ok(PreparedCommand { program, args, use_shell: false, output: cmd.output })
            }
        },
    }
}

/// Resolve `cmd`'s placeholders against a match into a spawnable command.
pub fn prepare(cmd: &ActionCommand, m: &MatchResult) -> (r: Result<PreparedCommand, KlippoError>)
    ensures
        cmd.shell ==> (r matches Ok(p) && p@ == shell_prepared(cmd@, m@)),
        !cmd.shell ==> prepared_from_split(cmd@, m@, shell_words_split(cmd@.command), r),
{
    if cmd.shell {
        let line = substitute(cmd.command.as_str(), &m.groups);
        let args = vec!["-c".to_owned(), line];
        let p = PreparedCommand {
            program: "/bin/sh".to_owned(),
            args,
            use_shell: true,
            output: cmd.output,
        };
        assert(p@.args =~= shell_prepared(cmd@, m@).args);
        return Ok(p);
    }
    let words = shell_split(cmd.command.as_str());
    prepare_words(cmd, m, words)
}


// ------------------------------------------------------------------------
// Built-in "magic" actions
// ------------------------------------------------------------------------

/// The detector for web links.
pub open spec fn url_pattern() -> Seq<char> {
    r"^https?://\S+$"@
}

/// The detector for e-mail addresses.
pub open spec fn email_pattern() -> Seq<char> {
    r"^[^@\s]+@[^@\s]+\.[^@\s]+$"@
}

/// A one-command magic action: fire-and-forget, shell-free, whitespace stripped.
pub open spec fn magic_view(name: Seq<char>, regex: Seq<char>, command: Seq<char>) -> ActionView {
    ActionView {
        name,
        regex,
        strip_whitespace: true,
        automatic: false,
        commands: seq![ActionCommandView { command, output: OutputMode::Ignore, shell: false }],
    }
}

/// The magic action that opens a link.
pub open spec fn open_link_view() -> ActionView {
    magic_view("Abrir link"@, r"^(https?://\S+)$"@, "xdg-open %s"@)
}

/// The magic action that writes an e-mail.
pub open spec fn send_mail_view() -> ActionView {
    magic_view("Enviar e-mail"@, r"^([^@\s]+@[^@\s]+\.[^@\s]+)$"@, "xdg-open mailto:%s"@)
}

/// The magic action that opens a local file.
pub open spec fn open_file_view() -> ActionView {
    magic_view("Abrir arquivo"@, r"^(.+)$"@, "xdg-open %s"@)
}

/// The magic actions for a value detected as a link, an e-mail address (only
/// looked at when it is no link) and an existing local file.
pub open spec fn magic_views(url: bool, email: bool, local_file: bool) -> Seq<ActionView> {
    (if url {
        seq![open_link_view()]
    } else if email {
        seq![send_mail_view()]
    } else {
        seq![]
    }) + (if local_file {
        seq![open_file_view()]
    } else {
        seq![]
    })
}

/// The views of a sequence of actions.
pub open spec fn actions_view(v: Seq<Action>) -> Seq<ActionView> {
    v.map_values(|a: Action| a@)
}

/// The path that `base.join(rest)` names for a relative or absolute `rest`
/// (Unix paths: an absolute `rest` replaces `base`, otherwise a separator is
/// added when `base` does not already end in one).
pub open spec fn joined_path(base: Seq<char>, rest: Seq<char>) -> Seq<char> {
    if rest.len() > 0 && rest[0] == '/' {
        rest
    } else if base.len() == 0 || base.last() == '/' {
        base + rest
    } else {
        base + seq!['/'] + rest
    }
}

/// The path a trimmed clipboard value names when it looks like a local file: a
/// single line that is absolute or starts with `~/` (resolved against `home`).
pub open spec fn local_path_of(t: Seq<char>, home: Option<Seq<char>>) -> Option<Seq<char>> {
    if t.contains('\n') || t.contains('\r') {
        None
    } else if t.len() >= 2 && t[0] == '~' && t[1] == '/' {
        match home {
            Some(h) => Some(joined_path(h, t.skip(2))),
            None => None,
        }
    } else if t.len() >= 1 && t[0] == '/' {
        Some(t)
    } else {
        None
    }
}

fn magic(name: &str, regex: &str, command: &str) -> (a: Action)
    ensures
        a@ == magic_view(name@, regex@, command@),
{
    let c = ActionCommand { command: command.to_owned(), output: OutputMode::Ignore, shell: false };
    let commands = vec![c];
    let a = Action {
        name: name.to_owned(),
        regex: regex.to_owned(),
        strip_whitespace: true,
        automatic: false,
        commands,
    };
    assert(a@.commands =~= magic_view(name@, regex@, command@).commands);
    a
}

/// The magic actions for the detector results: "Abrir link" for a link, else
/// "Enviar e-mail" for an e-mail address, then "Abrir arquivo" for an existing
/// local file.
pub fn magic_actions_for(url: bool, email: bool, local_file: bool) -> (r: Vec<Action>)
    ensures
        actions_view(r@) == magic_views(url, email, local_file),
{
    let mut out: Vec<Action> = Vec::new();
    if url {
        out.push(magic("Abrir link", r"^(https?://\S+)$", "xdg-open %s"));
    } else if email {
        out.push(magic("Enviar e-mail", r"^([^@\s]+@[^@\s]+\.[^@\s]+)$", "xdg-open mailto:%s"));
    }
    let ghost first = actions_view(out@);
    if local_file {
        out.push(magic("Abrir arquivo", r"^(.+)$", "xdg-open %s"));
    }
    assert(actions_view(out@) =~= magic_views(url, email, local_file));
    out
}

/// Whether `s` contains `c`.
fn has_char(s: &[char], c: char) -> (r: bool)
    ensures
        r == s@.contains(c),
{
    let mut i: usize = 0;
    while i < s.len()
        invariant
            i <= s.len(),
            forall|j: int| 0 <= j < i ==> s@[j] != c,
        decreases s.len() - i,
    {
        if s[i] == c {
            return true;
        }
        i = i + 1;
    }
    false
}

/// `base.join(rest)` for Unix paths held as strings.
pub fn join_path(base: &str, rest: &str) -> (r: String)
    ensures
        r@ == joined_path(base@, rest@),
{
    let b = crate::text::chars_of(base);
    let t = crate::text::chars_of(rest);
    if t.len() > 0 && t[0] == '/' {
        return rest.to_owned();
    }
    let mut out = base.to_owned();
    if b.len() > 0 && b[b.len() - 1] != '/' {
        push_char(&mut out, '/');
    }
    push_str(&mut out, rest);
    out
}

/// The local path a trimmed clipboard value names, if it is a single line that
/// is absolute or starts with `~/` and `home` is known.
pub fn local_path_candidate(trimmed: &str, home: Option<&str>) -> (r: Option<String>)
    ensures
        opt_str_view(r) == local_path_of(trimmed@, opt_str_ref_view(home)),
{
    let t = crate::text::chars_of(trimmed);
    if has_char(&t, '\n') || has_char(&t, '\r') {
        return None;
    }
    if t.len() >= 2 && t[0] == '~' && t[1] == '/' {
        match home {
            Some(h) => {
                let rest = crate::text::string_of(crate::text::slice_from(&t, 2).as_slice());
                assert(t@.skip(2) == rest@);
                Some(join_path(h, rest.as_str()))
            },
            None => None,
        }
    } else if t.len() >= 1 && t[0] == '/' {
        Some(trimmed.to_owned())
    } else {
        None
    }
}

/// The characters of an optional owned string.
pub open spec fn opt_str_view(o: Option<String>) -> Option<Seq<char>> {
    match o {
        Some(s) => Some(s@),
        None => None,
    }
}

/// The characters of an optional string slice.
pub open spec fn opt_str_ref_view(o: Option<&str>) -> Option<Seq<char>> {
    match o {
        Some(s) => Some(s@),
        None => None,
    }
}

/// Calls `Path::exists`; nothing is stated, since the answer depends on the
/// file system at the time of the call.
#[verifier::external_body]
fn path_exists(path: &str) -> bool {
    std::path::Path::new(path).exists()
}

/// Whether the compiled detector `pattern` matches `text` (false when it does
/// not compile).
fn detector_matches(pattern: &str, text: &str) -> (r: bool)
    ensures
        r == (regex_compiles(pattern@) && regex_is_match(pattern@, text@)),
{
    match compile(pattern) {
        Ok(p) => is_match(&p, text),
        Err(_) => false,
    }
}

/// The value was detected as a link.
pub open spec fn looks_like_url(t: Seq<char>) -> bool {
    regex_compiles(url_pattern()) && regex_is_match(url_pattern(), trim_ws(t))
}

/// The value was detected as an e-mail address.
pub open spec fn looks_like_email(t: Seq<char>) -> bool {
    regex_compiles(email_pattern()) && regex_is_match(email_pattern(), trim_ws(t))
}

/// Built-in "magic" actions inferred from a clipboard value's apparent type
/// (Klipper's `EnableMagicMimeActions`). Returns only the actions whose
/// detector matches `text`, so callers can merge them with configured actions.
/// `home` is the user's home directory, used to resolve `~/` paths.
pub fn magic_actions(text: &str, home: Option<&str>) -> (r: Vec<Action>)
    ensures
        exists|local_file: bool|
            actions_view(r@) == magic_views(looks_like_url(text@), looks_like_email(text@), local_file)
                && (local_file ==> local_path_of(trim_ws(text@), opt_str_ref_view(home)) is Some),
{
    let trimmed = trim_str(text);
    let url = detector_matches(r"^https?://\S+$", trimmed);
    let email = if url {
        false
    } else {
        detector_matches(r"^[^@\s]+@[^@\s]+\.[^@\s]+$", trimmed)
    };
    let local_file = match local_path_candidate(trimmed, home) {
        Some(p) => path_exists(p.as_str()),
        None => false,
    };
    let r = magic_actions_for(url, email, local_file);
    assert(magic_views(url, email, local_file) == magic_views(
        looks_like_url(text@),
        looks_like_email(text@),
        local_file,
    ));
    r
}


// ------------------------------------------------------------------------
// Choosing actions for a value
// ------------------------------------------------------------------------

/// The names of the actions that match `text`, in configuration order.
pub open spec fn matching_names(acts: Seq<ActionView>, text: Seq<char>) -> Seq<Seq<char>>
    decreases acts.len(),
{
    if acts.len() == 0 {
        seq![]
    } else {
        let rest = matching_names(acts.drop_last(), text);
        if action_matches(acts.last(), text) {
            rest.push(acts.last().name)
        } else {
            rest
        }
    }
}

/// The label offered for an action: its first command template, or nothing.
pub open spec fn first_command_label(a: ActionView) -> Seq<char> {
    if a.commands.len() > 0 {
        a.commands[0].command
    } else {
        seq![]
    }
}

/// The `(name, label)` pairs offered automatically for `text`: automatic
/// actions that match it, in configuration order.
pub open spec fn automatic_offers(acts: Seq<ActionView>, text: Seq<char>) -> Seq<(Seq<char>, Seq<char>)>
    decreases acts.len(),
{
    if acts.len() == 0 {
        seq![]
    } else {
        let rest = automatic_offers(acts.drop_last(), text);
        if acts.last().automatic && action_matches(acts.last(), text) {
            rest.push((acts.last().name, first_command_label(acts.last())))
        } else {
            rest
        }
    }
}

/// The characters of each pair of strings.
pub open spec fn pairs_view(v: Seq<(String, String)>) -> Seq<(Seq<char>, Seq<char>)> {
    v.map_values(|p: (String, String)| (p.0@, p.1@))
}

fn matches_ok(action: &Action, text: &str) -> (r: bool)
    ensures
        r == action_matches(action@, text@),
{
    match match_action(action, text) {
        Ok(Some(_)) => true,
        _ => false,
    }
}

/// Names of configured actions whose regex matches `text` (none when actions
/// are disabled).
pub fn matching_action_names(actions: &[Action], enabled: bool, text: &str) -> (r: Vec<String>)
    ensures
        strings_view(r@) == if enabled {
            matching_names(actions_view(actions@), text@)
        } else {
            seq![]
        },
{
    let mut out: Vec<String> = Vec::new();
    if !enabled {
        assert(strings_view(out@) =~= Seq::<Seq<char>>::empty());
        return out;
    }
    let ghost acts = actions_view(actions@);
    let mut i: usize = 0;
    while i < actions.len()
        invariant
            i <= actions.len(),
            acts == actions_view(actions@),
            strings_view(out@) == matching_names(acts.take(i as int), text@),
        decreases actions.len() - i,
    {
        assert(acts.take(i + 1).drop_last() =~= acts.take(i as int));
        assert(acts.take(i + 1).last() == actions@[i as int]@);
        let ghost before = out@;
        if matches_ok(&actions[i], text) {
            out.push(actions[i].name.clone());
            assert(strings_view(out@) =~= strings_view(before).push(actions@[i as int].name@));
        }
        i = i + 1;
    }
    assert(acts.take(actions.len() as int) =~= acts);
    out
}

/// The `(action name, first command)` pairs to offer automatically for
/// `text`: automatic actions that match it (none when actions are disabled).
pub fn automatic_action_offers(actions: &[Action], enabled: bool, text: &str) -> (r: Vec<(String, String)>)
    ensures
        pairs_view(r@) == if enabled {
            automatic_offers(actions_view(actions@), text@)
        } else {
            seq![]
        },
{
    let mut out: Vec<(String, String)> = Vec::new();
    if !enabled {
        assert(pairs_view(out@) =~= Seq::<(Seq<char>, Seq<char>)>::empty());
        return out;
    }
    let ghost acts = actions_view(actions@);
    let mut i: usize = 0;
    while i < actions.len()
        invariant
            i <= actions.len(),
            acts == actions_view(actions@),
            pairs_view(out@) == automatic_offers(acts.take(i as int), text@),
        decreases actions.len() - i,
    {
        let a = &actions[i];
        assert(acts.take(i + 1).drop_last() =~= acts.take(i as int));
        assert(acts.take(i + 1).last() == a@);
        let ghost before = out@;
        if a.automatic && matches_ok(a, text) {
            let label = if a.commands.len() > 0 {
                a.commands[0].command.clone()
            } else {
                String::new()
            };
            assert(a@.commands.len() == a.commands@.len());
            if a.commands.len() > 0 {
                assert(a@.commands[0] == a.commands@[0]@);
            }
            out.push((a.name.clone(), label));
            assert(pairs_view(out@) =~= pairs_view(before).push((a@.name, first_command_label(a@))));
        }
        i = i + 1;
    }
    assert(acts.take(actions.len() as int) =~= acts);
    out
}

/// The position of the first action named `name`.
pub fn find_action(actions: &[Action], name: &str) -> (r: Option<usize>)
    ensures
        r matches Some(i) ==> i < actions@.len() && actions@[i as int].name@ == name@ && (forall|j: int|
            0 <= j < i ==> (#[trigger] actions@[j]).name@ != name@),
        r is None ==> forall|j: int| 0 <= j < actions@.len() ==> (#[trigger] actions@[j]).name@ != name@,
{
    let mut i: usize = 0;
    while i < actions.len()
        invariant
            i <= actions.len(),
            forall|j: int| 0 <= j < i ==> (#[trigger] actions@[j]).name@ != name@,
        decreases actions.len() - i,
    {
        if crate::text::str_eq(actions[i].name.as_str(), name) {
            return Some(i);
        }
        i = i + 1;
    }
    None
}

// ------------------------------------------------------------------------
// Laws
// ------------------------------------------------------------------------

/// Law: a template without `%` is left exactly as it is.
pub proof fn law_substitute_plain(t: Seq<char>, groups: Seq<Seq<char>>)
    requires
        !t.contains('%'),
    ensures
        substituted(t, groups) == t,
    decreases t.len(),
{
    if t.len() > 0 {
        assert(t[0] != '%');
        assert(!t.drop_first().contains('%')) by {
            if t.drop_first().contains('%') {
                let i = choose|i: int| 0 <= i < t.drop_first().len() && t.drop_first()[i] == '%';
                assert(t[i + 1] == '%');
            }
        }
        law_substitute_plain(t.drop_first(), groups);
        assert(seq![t[0]] + t.drop_first() =~= t);
    }
}

/// Law: `%s` inserts the whole match verbatim, even when the matched text
/// itself holds `%` placeholders; and `%%` gives a single `%`.
pub proof fn law_substitute_verbatim(groups: Seq<Seq<char>>)
    ensures
        substituted(seq!['%', 's'], groups) == group_or_empty(groups, 0),
        substituted(seq!['%', '%'], groups) == seq!['%'],
{
    reveal_with_fuel(substituted, 2);
    let t = seq!['%', 's'];
    assert(t.len() == 2 && t[0] == '%' && t[1] == 's');
    assert(t.skip(2) =~= Seq::<char>::empty());
    assert(substituted(t.skip(2), groups) == Seq::<char>::empty());
    assert(group_or_empty(groups, 0) + Seq::<char>::empty() =~= group_or_empty(groups, 0));
    let u = seq!['%', '%'];
    assert(u.len() == 2 && u[0] == '%' && u[1] == '%');
    assert(u.skip(2) =~= Seq::<char>::empty());
    assert(substituted(u.skip(2), groups) == Seq::<char>::empty());
    assert(seq!['%'] + Seq::<char>::empty() =~= seq!['%']);
}

/// Law (injection safety): without the shell, the program and the number of
/// arguments come from the template's own words, whatever the matched text
/// holds; each argument is one template word with its placeholders filled in.
pub proof fn law_argv_from_template(
    cmd: ActionCommandView,
    g1: Seq<Seq<char>>,
    g2: Seq<Seq<char>>,
    words: Seq<Seq<char>>,
)
    requires
        words.len() > 0,
    ensures
        argv_prepared(cmd, g1, words).args.len() == words.len() - 1,
        argv_prepared(cmd, g1, words).args.len() == argv_prepared(cmd, g2, words).args.len(),
        forall|i: int|
            0 <= i < words.len() - 1 ==> #[trigger] argv_prepared(cmd, g1, words).args[i]
                == substituted(words[i + 1], g1),
        !argv_prepared(cmd, g1, words).use_shell,
{
}

/// Law (magic actions): at most two are offered, never both the link and the
/// e-mail action, and each runs one shell-free, fire-and-forget command that
/// is offered on demand only, on the whitespace-stripped value.
pub proof fn law_magic_actions_shape(url: bool, email: bool, local_file: bool)
    ensures
        magic_views(url, email, local_file).len() <= 2,
        !(magic_views(url, email, local_file).contains(open_link_view())
            && magic_views(url, email, local_file).contains(send_mail_view())),
        forall|i: int|
            0 <= i < magic_views(url, email, local_file).len() ==> {
                let a = #[trigger] magic_views(url, email, local_file)[i];
                &&& a.commands.len() == 1
                &&& !a.commands[0].shell
                &&& a.commands[0].output == OutputMode::Ignore
                &&& !a.automatic
                &&& a.strip_whitespace
            },
{
    reveal_strlit("Abrir link");
    reveal_strlit("Enviar e-mail");
    reveal_strlit("Abrir arquivo");
    let v = magic_views(url, email, local_file);
    assert(open_link_view() != send_mail_view()) by {
        assert(open_link_view().name[1] != send_mail_view().name[1]);
    }
    assert(open_link_view() != open_file_view()) by {
        assert(open_link_view().name[6] != open_file_view().name[6]);
    }
    assert(send_mail_view() != open_file_view()) by {
        assert(send_mail_view().name[0] != open_file_view().name[0]);
    }
    if v.contains(open_link_view()) && v.contains(send_mail_view()) {
        let i = choose|i: int| 0 <= i < v.len() && v[i] == open_link_view();
        let j = choose|j: int| 0 <= j < v.len() && v[j] == send_mail_view();
        assert(url);
        assert(false);
    }
}

} // verus!

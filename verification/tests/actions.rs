use klippo::actions::{
    automatic_action_offers, find_action, join_path, local_path_candidate, magic_actions,
    magic_actions_for, match_action, match_from_captures, matching_action_names, prepare,
    prepare_words, substitute, Action, ActionCommand, MatchResult, OutputMode,
};
use klippo::error::KlippoError;

fn url_action() -> Action {
    Action {
        name: "Abrir URL".into(),
        regex: r"^(https?://\S+)$".into(),
        strip_whitespace: true,
        automatic: false,
        commands: vec![ActionCommand {
            command: "xdg-open %s".into(),
            output: OutputMode::Ignore,
            shell: false,
        }],
    }
}

#[test]
fn substitute_handles_placeholders() {
    let g = vec!["https://x".to_string(), "https://x".to_string()];
    assert_eq!(substitute("open %s", &g), "open https://x");
    assert_eq!(substitute("g %1 %0", &g), "g https://x https://x");
    assert_eq!(substitute("100%% done", &g), "100% done");
    assert_eq!(substitute("missing %7", &g), "missing ");
}

#[test]
fn match_trims_and_captures() {
    let m = match_action(&url_action(), "  https://example.com  ")
        .unwrap()
        .unwrap();
    assert_eq!(m.groups[0], "https://example.com");
    assert_eq!(m.groups[1], "https://example.com");
    assert!(match_action(&url_action(), "not a url").unwrap().is_none());
}

#[test]
fn prepare_is_injection_safe() {
    let a = url_action();
    let m = MatchResult {
        groups: vec!["https://x; rm -rf ~".into()],
    };
    let p = prepare(&a.commands[0], &m).unwrap();
    assert_eq!(p.program, "xdg-open");
    // The dangerous value stays a single argv element — not re-tokenized.
    assert_eq!(p.args, vec!["https://x; rm -rf ~".to_string()]);
    assert!(!p.use_shell);
}

#[test]
fn magic_actions_detect_url_and_email() {
    let urls = magic_actions("https://example.com", None);
    assert_eq!(urls.len(), 1);
    assert_eq!(urls[0].name, "Abrir link");

    let mail = magic_actions("  me@example.com  ", None);
    assert_eq!(mail.len(), 1);
    assert_eq!(mail[0].name, "Enviar e-mail");

    assert!(magic_actions("just some text", None).is_empty());
    assert!(magic_actions("/nonexistent/path/klippo-xyz", None).is_empty());
}

#[test]
fn magic_email_builds_mailto_argv() {
    let a = &magic_actions("me@example.com", None)[0];
    let m = match_action(a, "me@example.com").unwrap().unwrap();
    let p = prepare(&a.commands[0], &m).unwrap();
    assert_eq!(p.program, "xdg-open");
    assert_eq!(p.args, vec!["mailto:me@example.com".to_string()]);
}

// --- further cases ---

#[test]
fn substitute_edge_cases() {
    let g = vec!["A".to_string(), "B".to_string()];
    // A lone trailing `%` and an unknown placeholder stay as they are.
    assert_eq!(substitute("50%", &g), "50%");
    assert_eq!(substitute("%x%1", &g), "%xB");
    // `%%%s`: the first pair is a literal `%`, then the whole match.
    assert_eq!(substitute("%%%s", &g), "%A");
    // No groups at all: placeholders vanish.
    assert_eq!(substitute("[%s|%0|%9]", &[]), "[||]");
    // Matched text is inserted verbatim, never re-expanded.
    let evil = vec!["%1%s".to_string(), "X".to_string()];
    assert_eq!(substitute("%s", &evil), "%1%s");
    // Without `%` the template is unchanged.
    assert_eq!(substitute("plain text", &g), "plain text");
}

#[test]
fn match_without_strip_keeps_spaces() {
    let mut a = url_action();
    a.strip_whitespace = false;
    assert!(match_action(&a, "  https://example.com  ").unwrap().is_none());
    let m = match_action(&a, "https://example.com").unwrap().unwrap();
    assert_eq!(m.groups.len(), 2);
}

#[test]
fn optional_group_that_did_not_match_is_empty() {
    let a = Action {
        name: "opt".into(),
        regex: r"^(a)(b)?$".into(),
        strip_whitespace: true,
        automatic: false,
        commands: vec![],
    };
    let m = match_action(&a, "a").unwrap().unwrap();
    assert_eq!(m.groups, vec!["a".to_string(), "a".to_string(), String::new()]);
}

#[test]
fn invalid_regex_is_an_error() {
    let mut a = url_action();
    a.regex = "(unclosed".into();
    assert!(matches!(match_action(&a, "x"), Err(KlippoError::Regex(_))));
}

#[test]
fn match_from_captures_fills_missing_groups() {
    assert!(match_from_captures(None).is_none());
    let m = match_from_captures(Some(vec![Some("ab".to_string()), None, Some("b".to_string())]))
        .unwrap();
    assert_eq!(m.groups, vec!["ab".to_string(), String::new(), "b".to_string()]);
}

#[test]
fn prepare_errors_and_shell_mode() {
    let m = MatchResult {
        groups: vec!["v".into()],
    };
    let unclosed = ActionCommand {
        command: "echo 'oops".into(),
        output: OutputMode::Ignore,
        shell: false,
    };
    match prepare(&unclosed, &m) {
        Err(KlippoError::ActionParse(msg)) => assert_eq!(msg, "missing closing quote"),
        other => panic!("unexpected {other:?}"),
    }
    let empty = ActionCommand {
        command: "   ".into(),
        output: OutputMode::Ignore,
        shell: false,
    };
    match prepare(&empty, &m) {
        Err(KlippoError::ActionParse(msg)) => assert_eq!(msg, "empty command template"),
        other => panic!("unexpected {other:?}"),
    }
    let shell = ActionCommand {
        command: "echo %s | wc".into(),
        output: OutputMode::NewEntry,
        shell: true,
    };
    let p = prepare(&shell, &m).unwrap();
    assert_eq!(p.program, "/bin/sh");
    assert_eq!(p.args, vec!["-c".to_string(), "echo v | wc".to_string()]);
    assert!(p.use_shell);
    assert_eq!(p.output, OutputMode::NewEntry);
}

#[test]
fn prepare_splits_quoted_words_before_substituting() {
    let m = MatchResult {
        groups: vec!["a b".into(), "c".into()],
    };
    let cmd = ActionCommand {
        command: "prog 'x y' %s %1".into(),
        output: OutputMode::ReplaceClipboard,
        shell: false,
    };
    let p = prepare(&cmd, &m).unwrap();
    assert_eq!(p.program, "prog");
    assert_eq!(
        p.args,
        vec!["x y".to_string(), "a b".to_string(), "c".to_string()]
    );
}

#[test]
fn prepare_words_uses_the_given_words() {
    let m = MatchResult {
        groups: vec!["G".into()],
    };
    let cmd = ActionCommand {
        command: "ignored".into(),
        output: OutputMode::Ignore,
        shell: false,
    };
    let p = prepare_words(&cmd, &m, Ok(vec!["run".into(), "%s!".into()])).unwrap();
    assert_eq!(p.program, "run");
    assert_eq!(p.args, vec!["G!".to_string()]);
    assert!(matches!(
        prepare_words(&cmd, &m, Err("bad".into())),
        Err(KlippoError::ActionParse(s)) if s == "bad"
    ));
    assert!(matches!(
        prepare_words(&cmd, &m, Ok(vec![])),
        Err(KlippoError::ActionParse(_))
    ));
}

#[test]
fn magic_actions_for_combines_detectors() {
    let a = magic_actions_for(true, true, true);
    assert_eq!(a.len(), 2);
    assert_eq!(a[0].name, "Abrir link");
    assert_eq!(a[1].name, "Abrir arquivo");
    assert_eq!(a[1].commands[0].command, "xdg-open %s");
    let b = magic_actions_for(false, true, false);
    assert_eq!(b.len(), 1);
    assert_eq!(b[0].commands[0].command, "xdg-open mailto:%s");
    assert!(magic_actions_for(false, false, false).is_empty());
}

#[test]
fn magic_actions_detect_existing_files() {
    let a = magic_actions("/", None);
    assert_eq!(a.len(), 1);
    assert_eq!(a[0].name, "Abrir arquivo");
    // `~/` paths need a home directory.
    assert!(magic_actions("~/", None).is_empty());
    assert_eq!(magic_actions("~/", Some("/")).len(), 1);
    // Multi-line values are never paths.
    assert!(magic_actions("/\n/", None).is_empty());
}

#[test]
fn local_paths_and_joining() {
    assert_eq!(join_path("/home/u", "docs"), "/home/u/docs");
    assert_eq!(join_path("/home/u/", "docs"), "/home/u/docs");
    assert_eq!(join_path("/home/u", "/etc"), "/etc");
    assert_eq!(join_path("", "x"), "x");
    assert_eq!(
        local_path_candidate("~/notes.txt", Some("/home/u")),
        Some("/home/u/notes.txt".to_string())
    );
    assert_eq!(local_path_candidate("~/notes.txt", None), None);
    assert_eq!(local_path_candidate("/tmp/x", None), Some("/tmp/x".to_string()));
    assert_eq!(local_path_candidate("relative", Some("/h")), None);
    assert_eq!(local_path_candidate("/a\r", None), None);
}

#[test]
fn matching_names_and_offers() {
    let mut auto = url_action();
    auto.name = "Auto".into();
    auto.automatic = true;
    let other = Action {
        name: "Mail".into(),
        regex: r"@".into(),
        strip_whitespace: true,
        automatic: true,
        commands: vec![],
    };
    let bad = Action {
        name: "Bad".into(),
        regex: "(".into(),
        strip_whitespace: true,
        automatic: true,
        commands: vec![],
    };
    let acts = vec![url_action(), auto, other, bad];
    assert_eq!(
        matching_action_names(&acts, true, "https://a.b"),
        vec!["Abrir URL".to_string(), "Auto".to_string()]
    );
    assert!(matching_action_names(&acts, false, "https://a.b").is_empty());
    assert_eq!(
        automatic_action_offers(&acts, true, "https://a.b"),
        vec![("Auto".to_string(), "xdg-open %s".to_string())]
    );
    assert_eq!(
        automatic_action_offers(&acts, true, "x@y"),
        vec![("Mail".to_string(), String::new())]
    );
    assert_eq!(find_action(&acts, "Mail"), Some(2));
    assert_eq!(find_action(&acts, "Nope"), None);
}

#[test]
fn output_mode_defaults_to_ignore() {
    assert_eq!(OutputMode::default(), OutputMode::Ignore);
}

#[test]
fn magic_actions_are_shell_free_and_on_demand() {
    for text in ["https://example.com", "me@example.com", "/"] {
        let acts = magic_actions(text, None);
        assert!(acts.len() <= 2);
        for a in &acts {
            assert_eq!(a.commands.len(), 1);
            assert!(!a.commands[0].shell);
            assert_eq!(a.commands[0].output, OutputMode::Ignore);
            assert!(!a.automatic);
            assert!(a.strip_whitespace);
        }
    }
    assert_eq!(magic_actions("/", None).len(), 1, "the root directory exists");
}

//! Compiled regular expressions and command-line word splitting, by way of the
//! `regex` and `shell-words` crates.

use vstd::prelude::*;

use crate::model::opt_view;

verus! {

/// The `regex` crate's error for a pattern that does not compile.
#[verifier::external_type_specification]
#[verifier::external_body]
pub struct ExRegexError(regex::Error);

/// The `regex` crate's compiled regular expression, carried through opaquely.
#[verifier::external_type_specification]
#[verifier::external_body]
pub struct ExRegex(regex::Regex);

/// Whether `regex::Regex::new` accepts `pattern`.
pub uninterp spec fn regex_compiles(pattern: Seq<char>) -> bool;

/// What `Regex::captures` returns for the compiled `pattern` on `haystack`:
/// `None` without a match, otherwise every group of the leftmost-first match
/// (group 0 the whole match), each `None` when it did not participate.
pub uninterp spec fn regex_captures(pattern: Seq<char>, haystack: Seq<char>) -> Option<
    Seq<Option<Seq<char>>>,
>;

/// What `Regex::is_match` returns for the compiled `pattern` on `haystack`.
pub uninterp spec fn regex_is_match(pattern: Seq<char>, haystack: Seq<char>) -> bool;

/// What `shell_words::split` returns for `s`: the words after POSIX-style quote
/// removal, or `None` when a quote is left open.
pub uninterp spec fn shell_words_split(s: Seq<char>) -> Option<Seq<Seq<char>>>;

/// A regular expression compiled from its source text.
pub struct Pattern {
    source: String,
    compiled: regex::Regex,
}

impl Pattern {
    /// The source text the pattern was compiled from.
    pub closed spec fn source(&self) -> Seq<char> {
        self.source@
    }
}

/// The characters of every group of a capture list.
pub open spec fn captures_view(c: Option<Vec<Option<String>>>) -> Option<Seq<Option<Seq<char>>>> {
    match c {
        Some(v) => Some(v@.map_values(|o: Option<String>| opt_view(o))),
        None => None,
    }
}

/// Calls `regex::Regex::new`; compilation succeeds exactly when
/// `regex_compiles` holds of the source, and the pattern keeps its source.
#[verifier::external_body]
pub(crate) fn compile(source: &str) -> (r: Result<Pattern, regex::Error>)
    ensures
        r is Ok <==> regex_compiles(source@),
        r matches Ok(p) ==> p.source() == source@,
{
    match regex::Regex::new(source) {
        Ok(compiled) => Ok(Pattern { source: source.to_string(), compiled }),
        Err(e) => Err(e),
    }
}

/// Calls `Regex::captures` and copies each group's text; the result is named
/// by `regex_captures`, and it is `Some` exactly when `Regex::is_match` holds.
#[verifier::external_body]
pub(crate) fn captures(p: &Pattern, haystack: &str) -> (r: Option<Vec<Option<String>>>)
    ensures
        captures_view(r) == regex_captures(p.source(), haystack@),
        r is Some <==> regex_is_match(p.source(), haystack@),
{
    p.compiled.captures(haystack).map(
        |caps| caps.iter().map(|m| m.map(|mm| mm.as_str().to_string())).collect(),
    )
}

/// Calls `Regex::is_match`; the result is named by `regex_is_match`.
#[verifier::external_body]
pub(crate) fn is_match(p: &Pattern, haystack: &str) -> (r: bool)
    ensures
        r == regex_is_match(p.source(), haystack@),
{
    p.compiled.is_match(haystack)
}

/// The characters of every word of a split.
pub open spec fn words_view(v: Vec<String>) -> Seq<Seq<char>> {
    v@.map_values(|s: String| s@)
}

/// Calls `shell_words::split`; the words are named by `shell_words_split`, and
/// the only error, an unclosed quote, displays as "missing closing quote".
#[verifier::external_body]
pub(crate) fn shell_split(s: &str) -> (r: Result<Vec<String>, String>)
    ensures
        r is Ok <==> shell_words_split(s@) is Some,
        r matches Ok(v) ==> shell_words_split(s@) == Some(words_view(v)),
        r matches Err(m) ==> m@ == "missing closing quote"@,
{
    shell_words::split(s).map_err(|e| e.to_string())
}

} // verus!

//! Requests the command-line client sends to the running daemon.

use vstd::prelude::*;

use crate::text::{trim_str, trim_ws};

verus! {

/// What `klippo toggle|show|hide|clear` asks the daemon to do.
#[derive(Debug, Clone, Copy, PartialEq, Eq, Structural)]
pub enum Request {
    Toggle,
    Show,
    Hide,
    Clear,
}

/// Whether text read from standard input by `klippo __feed` is worth sending:
/// text that is empty or only whitespace is dropped.
pub fn feed_text_wanted(text: &str) -> (r: bool)
    ensures
        r == (trim_ws(text@).len() > 0),
{
    !trim_str(text).is_empty()
}

} // verus!

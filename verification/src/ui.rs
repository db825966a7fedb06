//! Pure pieces of the popup's presentation.

use vstd::prelude::*;

use crate::actions::digit_value;
use crate::text::{chars_of, digit_char, push_char, push_str};

verus! {

/// `s` without any `"` characters.
pub open spec fn without_quotes(s: Seq<char>) -> Seq<char>
    decreases s.len(),
{
    if s.len() == 0 {
        seq![]
    } else if s.last() == '"' {
        without_quotes(s.drop_last())
    } else {
        without_quotes(s.drop_last()).push(s.last())
    }
}

/// The CSS that sets the monospace previews and indices to `family`.
pub open spec fn font_css_text(family: Seq<char>) -> Seq<char> {
    ".klippo-preview, .klippo-index { font-family: \""@ + without_quotes(family) + "\", monospace; }"@
}

/// CSS overriding the monospace previews/index with `font_family`. Quotes are
/// stripped so a stray `"` in the value can't break out of the declaration.
pub fn font_css(font_family: &str) -> (r: String)
    ensures
        r@ == font_css_text(font_family@),
{
    let mut out = String::new();
    push_str(&mut out, ".klippo-preview, .klippo-index { font-family: \"");
    let cs = chars_of(font_family);
    let ghost head = out@;
    let mut i: usize = 0;
    while i < cs.len()
        invariant
            i <= cs.len(),
            out@ == head + without_quotes(cs@.take(i as int)),
        decreases cs.len() - i,
    {
        assert(cs@.take(i + 1).drop_last() =~= cs@.take(i as int));
        if cs[i] != '"' {
            push_char(&mut out, cs[i]);
        }
        i = i + 1;
    }
    assert(cs@.take(cs.len() as int) =~= cs@);
    push_str(&mut out, "\", monospace; }");
    out
}

/// Law: the family text inside the generated CSS never holds a `"`, so it
/// cannot end the quoted string early.
pub proof fn law_font_css_quote_free(family: Seq<char>)
    ensures
        !without_quotes(family).contains('"'),
    decreases family.len(),
{
    if family.len() > 0 {
        law_font_css_quote_free(family.drop_last());
        let w = without_quotes(family.drop_last());
        if family.last() != '"' {
            assert forall|i: int| 0 <= i < w.push(family.last()).len() implies w.push(family.last())[i] != '"' by {
                if i < w.len() {
                    assert(w.push(family.last())[i] == w[i]);
                }
            }
        }
    }
}


/// Height of one history row, in pixels.
pub const ROW_PX: i32 = 38;

/// Height of the list when it shows only its "empty" message, in pixels.
pub const EMPTY_LIST_PX: i32 = 64;

/// The number of rows the list area is sized for: all of them, but at least
/// one and at most `max_rows` (itself at least one).
pub open spec fn shown_rows(rows: int, max_rows: int) -> int {
    let m = if max_rows < 1 { 1 } else { max_rows };
    if rows < 1 { 1 } else if rows > m { m } else { rows }
}

/// The list height for `rows` entries: compact for a few, capped at
/// `max_rows` rows (beyond that the list scrolls).
pub open spec fn fitted_height(rows: int, max_rows: int) -> int {
    if rows == 0 {
        EMPTY_LIST_PX as int
    } else {
        shown_rows(rows, max_rows) * ROW_PX
    }
}

/// Size of the scrolled area for `rows` entries given the configured
/// `popup_max_rows`. The height must fit an `i32`.
pub fn fit_height_px(rows: usize, popup_max_rows: u32) -> (r: i32)
    requires
        shown_rows(rows as int, popup_max_rows as int) * ROW_PX <= i32::MAX,
    ensures
        r == fitted_height(rows as int, popup_max_rows as int),
{
    if rows == 0 {
        return EMPTY_LIST_PX;
    }
    let max_rows: usize = if popup_max_rows < 1 { 1 } else { popup_max_rows as usize };
    let shown: usize = if rows < max_rows { rows } else { max_rows };
    assert(shown as int == shown_rows(rows as int, popup_max_rows as int));
    (shown as i32) * ROW_PX
}

/// The number shown in front of row `index` (0-based): `1`..`9` for the first
/// nine rows, which Alt+1..Alt+9 select, and nothing after them.
pub fn row_index_label(index: usize) -> (r: String)
    ensures
        r@ == if index < 9 {
            seq![digit_char((index + 1) as nat)]
        } else {
            Seq::<char>::empty()
        },
{
    let mut s = String::new();
    if index < 9 {
        let c = match index {
            0 => '1',
            1 => '2',
            2 => '3',
            3 => '4',
            4 => '5',
            5 => '6',
            6 => '7',
            7 => '8',
            _ => '9',
        };
        push_char(&mut s, c);
    }
    s
}

/// The row (0-based) that Alt plus the key `c` selects: Alt+1..Alt+9 pick the
/// first nine rows; other keys select nothing.
pub fn alt_shortcut_row(c: char) -> (r: Option<i32>)
    ensures
        match digit_value(c) {
            Some(n) => if n >= 1 {
                r == Some((n - 1) as i32)
            } else {
                r is None
            },
            None => r is None,
        },
{
    match c {
        '1' => Some(0),
        '2' => Some(1),
        '3' => Some(2),
        '4' => Some(3),
        '5' => Some(4),
        '6' => Some(5),
        '7' => Some(6),
        '8' => Some(7),
        '9' => Some(8),
        _ => None,
    }
}

} // verus!

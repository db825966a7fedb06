//! The list edits behind binding Super+V on GNOME: freeing `<Super>v` from the
//! message-tray toggle and registering Klippo's custom keybinding.

use vstd::prelude::*;

use crate::actions::strings_view;
use crate::text::{push_str, str_eq};

verus! {

/// The shortcut Klippo takes.
pub const SUPER_V: &'static str = "<Super>v";

/// The gsettings path of Klippo's custom keybinding.
pub const KLIPPO_KB_PATH: &'static str = "/org/gnome/settings-daemon/plugins/media-keys/custom-keybindings/klippo/";

/// `list` without the entries equal to `x`, order kept.
pub open spec fn without_item(list: Seq<Seq<char>>, x: Seq<char>) -> Seq<Seq<char>> {
    list.filter(|s: Seq<char>| s != x)
}

fn contains_str(list: &Vec<String>, x: &str) -> (r: bool)
    ensures
        r == strings_view(list@).contains(x@),
{
    let mut i: usize = 0;
    while i < list.len()
        invariant
            i <= list.len(),
            forall|j: int| 0 <= j < i ==> (#[trigger] list@[j])@ != x@,
        decreases list.len() - i,
    {
        if str_eq(list[i].as_str(), x) {
            assert(strings_view(list@)[i as int] == x@);
            return true;
        }
        i = i + 1;
    }
    assert forall|j: int| 0 <= j < strings_view(list@).len() implies strings_view(list@)[j] != x@ by {
        assert(list@[j]@ != x@);
    }
    false
}

/// Remove `binding` from a list of keybindings. Returns the new list and
/// whether it was there (when it was not, the list comes back unchanged).
pub fn release_binding(bindings: Vec<String>, binding: &str) -> (r: (Vec<String>, bool))
    ensures
        r.1 == strings_view(bindings@).contains(binding@),
        strings_view(r.0@) == if r.1 {
            without_item(strings_view(bindings@), binding@)
        } else {
            strings_view(bindings@)
        },
{
    if !contains_str(&bindings, binding) {
        return (bindings, false);
    }
    let ghost all = strings_view(bindings@);
    let ghost pred = |s: Seq<char>| s != binding@;
    let mut kept: Vec<String> = Vec::new();
    let mut i: usize = 0;
    while i < bindings.len()
        invariant
            i <= bindings.len(),
            all == strings_view(bindings@),
            pred == (|s: Seq<char>| s != binding@),
            strings_view(kept@) == all.take(i as int).filter(pred),
        decreases bindings.len() - i,
    {
        assert(all.take(i + 1) =~= all.take(i as int).push(all[i as int]));
        proof {
            all.take(i as int).lemma_filter_push(all[i as int], pred);
        }
        let ghost before = kept@;
        if !str_eq(bindings[i].as_str(), binding) {
            kept.push(bindings[i].clone());
            assert(strings_view(kept@) =~= strings_view(before).push(all[i as int]));
        }
        i = i + 1;
    }
    assert(all.take(bindings.len() as int) =~= all);
    (kept, true)
}

/// Add `path` to a list of keybinding paths unless it is already there.
/// Returns the new list and whether it changed.
pub fn register_path(list: Vec<String>, path: &str) -> (r: (Vec<String>, bool))
    ensures
        r.1 == !strings_view(list@).contains(path@),
        strings_view(r.0@) == if r.1 {
            strings_view(list@).push(path@)
        } else {
            strings_view(list@)
        },
{
    if contains_str(&list, path) {
        return (list, false);
    }
    let mut l = list;
    let ghost before = l@;
    l.push(path.to_owned());
    assert(strings_view(l@) =~= strings_view(before).push(path@));
    (l, true)
}

/// The command the keybinding runs: `{exe} toggle`.
pub fn toggle_command(exe: &str) -> (r: String)
    ensures
        r@ == exe@ + " toggle"@,
{
    let mut s = exe.to_owned();
    push_str(&mut s, " toggle");
    s
}

} // verus!

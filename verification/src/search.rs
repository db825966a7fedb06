//! Incremental, case-insensitive substring filtering for the popup search box.

use vstd::prelude::*;

use crate::model::{Entry, EntryView};
use crate::text::{has_substring, lowercase, str_contains, to_lowercase, trim_str, trim_ws};

verus! {

/// The search key for a query: trimmed, then lowercased.
pub open spec fn search_key(query: Seq<char>) -> Seq<char> {
    lowercase(trim_ws(query))
}

/// An entry matches a non-empty key when the key occurs in its lowercased
/// preview or in its lowercased full text.
pub open spec fn entry_matches(e: EntryView, key: Seq<char>) -> bool {
    has_substring(lowercase(e.preview), key) || (match e.text {
        Some(t) => has_substring(lowercase(t), key),
        None => false,
    })
}

/// The entries a query selects, in the order given: all of them for an
/// empty key.
pub open spec fn filtered(es: Seq<EntryView>, query: Seq<char>) -> Seq<EntryView> {
    let key = search_key(query);
    if key.len() == 0 {
        es
    } else {
        es.filter(|e: EntryView| entry_matches(e, key))
    }
}

/// The views of a sequence of entry references.
pub open spec fn refs_view(v: Seq<&Entry>) -> Seq<EntryView> {
    v.map_values(|e: &Entry| e@)
}

/// The views of a sequence of entries.
pub open spec fn entries_view(v: Seq<Entry>) -> Seq<EntryView> {
    v.map_values(|e: Entry| e@)
}

fn entry_matches_key(e: &Entry, key: &str) -> (r: bool)
    ensures
        r == entry_matches(e@, key@),
{
    let p = to_lowercase(e.preview.as_str());
    if str_contains(p.as_str(), key) {
        return true;
    }
    match &e.text {
        Some(t) => {
            let lt = to_lowercase(t.as_str());
            str_contains(lt.as_str(), key)
        },
        None => false,
    }
}

/// Return the entries matching `query`, preserving input order.
///
/// An empty query returns everything (restoring the full list when the search
/// box is cleared). Matching checks the full text of text entries and the
/// preview of all entries.
pub fn filter<'a>(entries: &'a [Entry], query: &str) -> (r: Vec<&'a Entry>)
    ensures
        refs_view(r@) == filtered(entries_view(entries@), query@),
        trim_ws(query@).len() == 0 ==> refs_view(r@) == entries_view(entries@),
{
    let key = to_lowercase(trim_str(query));
    let ghost es = entries_view(entries@);
    let ghost k = key@;
    let ghost pred = |e: EntryView| entry_matches(e, k);
    let mut out: Vec<&'a Entry> = Vec::new();
    let mut i: usize = 0;
    let empty = key.as_str().is_empty();
    while i < entries.len()
        invariant
            i <= entries.len(),
            es == entries_view(entries@),
            k == key@,
            pred == (|e: EntryView| entry_matches(e, k)),
            empty == (k.len() == 0),
            refs_view(out@) == if empty {
                es.take(i as int)
            } else {
                es.take(i as int).filter(pred)
            },
        decreases entries.len() - i,
    {
        let e = &entries[i];
        let ghost before = out@;
        assert(es.take(i + 1) =~= es.take(i as int).push(es[i as int]));
        assert(es[i as int] == e@);
        proof {
            es.take(i as int).lemma_filter_push(es[i as int], pred);
        }
        if empty || entry_matches_key(e, key.as_str()) {
            out.push(e);
            assert(refs_view(out@) =~= refs_view(before).push(e@));
        }
        i = i + 1;
    }
    assert(es.take(entries.len() as int) =~= es);
    out
}

/// Law: the result of a search is a subsequence of the history in its order,
/// and holds exactly the entries that match the key.
pub proof fn law_filter_keeps_matches(es: Seq<EntryView>, query: Seq<char>)
    requires
        search_key(query).len() > 0,
    ensures
        forall|e: EntryView| filtered(es, query).contains(e) <==> es.contains(e) && entry_matches(e, search_key(query)),
        filtered(es, query).len() <= es.len(),
{
    let key = search_key(query);
    let pred = |e: EntryView| entry_matches(e, key);
    es.lemma_filter_len(pred);
    assert forall|e: EntryView| filtered(es, query).contains(e) <==> es.contains(e) && entry_matches(e, key) by {
        if filtered(es, query).contains(e) {
            let i = choose|i: int| 0 <= i < es.filter(pred).len() && es.filter(pred)[i] == e;
            es.lemma_filter_pred(pred, i);
            es.lemma_filter_contains_rev(pred, e);
        }
        if es.contains(e) && entry_matches(e, key) {
            let i = choose|i: int| 0 <= i < es.len() && es[i] == e;
            es.lemma_filter_contains(pred, i);
        }
    }
}

/// A key found inside a string that holds a longer key is found in it too.
proof fn lemma_substring_trans(a: Seq<char>, b: Seq<char>, c: Seq<char>)
    requires
        has_substring(a, b),
        has_substring(b, c),
    ensures
        has_substring(a, c),
{
    let i = choose|i: int| 0 <= i && i + b.len() <= a.len() && #[trigger] a.subrange(i, i + b.len()) == b;
    let j = choose|j: int| 0 <= j && j + c.len() <= b.len() && #[trigger] b.subrange(j, j + c.len()) == c;
    assert(a.subrange(i + j, i + j + c.len()) =~= c) by {
        assert forall|k: int| 0 <= k < c.len() implies a.subrange(i + j, i + j + c.len())[k] == c[k] by {
            assert(a.subrange(i, i + b.len())[j + k] == b[j + k]);
            assert(b.subrange(j, j + c.len())[k] == c[k]);
        }
    }
}

/// Filtering by a stronger predicate after a weaker one is filtering by the
/// stronger one.
proof fn lemma_filter_twice(s: Seq<EntryView>, p1: spec_fn(EntryView) -> bool, p2: spec_fn(EntryView) -> bool)
    requires
        forall|e: EntryView| #[trigger] p2(e) ==> p1(e),
    ensures
        s.filter(p1).filter(p2) == s.filter(p2),
    decreases s.len(),
{
    reveal_with_fuel(Seq::filter, 2);
    if s.len() > 0 {
        lemma_filter_twice(s.drop_last(), p1, p2);
        let f1 = s.drop_last().filter(p1);
        if p1(s.last()) {
            assert(s.filter(p1) == f1.push(s.last()));
            assert(f1.push(s.last()).drop_last() =~= f1);
        } else {
            assert(s.filter(p1) == f1);
        }
    }
}

/// Law (narrowing): typing more of a query never adds results. When the new
/// query's key holds the old one's, the new results are the old results that
/// match the new key, in the same order.
pub proof fn law_filter_narrowing(es: Seq<EntryView>, q1: Seq<char>, q2: Seq<char>)
    requires
        has_substring(search_key(q2), search_key(q1)),
    ensures
        search_key(q2).len() > 0 ==> filtered(es, q2) == filtered(es, q1).filter(
            |e: EntryView| entry_matches(e, search_key(q2)),
        ),
        search_key(q2).len() == 0 ==> filtered(es, q2) == filtered(es, q1),
        filtered(es, q2).len() <= filtered(es, q1).len(),
{
    let k1 = search_key(q1);
    let k2 = search_key(q2);
    let p1 = |e: EntryView| entry_matches(e, k1);
    let p2 = |e: EntryView| entry_matches(e, k2);
    if k2.len() == 0 {
        assert(k1.len() == 0);
    } else {
        assert forall|e: EntryView| #[trigger] p2(e) implies p1(e) by {
            if has_substring(lowercase(e.preview), k2) {
                lemma_substring_trans(lowercase(e.preview), k2, k1);
            } else {
                match e.text {
                    Some(t) => lemma_substring_trans(lowercase(t), k2, k1),
                    None => {},
                }
            }
        }
        if k1.len() == 0 {
            es.lemma_filter_len(p2);
        } else {
            lemma_filter_twice(es, p1, p2);
            es.lemma_filter_len(p1);
            es.filter(p1).lemma_filter_len(p2);
        }
    }
}

} // verus!

//! The clipboard history: deduplicated by content id, ordered pinned-first and
//! then most-recent-first, and pruned to a maximum size after every insert.
//!
//! Inserting content that is already present does not add a row: the existing
//! entry takes the new timestamp and preview and moves to its new place in the
//! order (most-recently-used promotion). After each insert the history keeps
//! only its first `max_items` entries and hands back the ones it dropped, so the
//! caller can delete any image files they point to.

use vstd::prelude::*;

use crate::error::KlippoError;
use crate::model::{Entry, EntryView};

verus! {

/// `a` comes strictly before `b`: pinned entries first, then newer timestamps.
pub open spec fn ranks_above(a: EntryView, b: EntryView) -> bool {
    (a.pinned && !b.pinned) || (a.pinned == b.pinned && a.timestamp_ms > b.timestamp_ms)
}

/// No entry ranks above an entry that precedes it.
pub open spec fn ordered(s: Seq<EntryView>) -> bool {
    forall|i: int, j: int| 0 <= i < j < s.len() ==> !ranks_above(#[trigger] s[j], #[trigger] s[i])
}

/// No two entries share an id.
pub open spec fn unique_ids(s: Seq<EntryView>) -> bool {
    forall|i: int, j: int| 0 <= i < j < s.len() ==> (#[trigger] s[i]).id != (#[trigger] s[j]).id
}

/// A well-formed history: ordered, with unique ids.
pub open spec fn history_wf(s: Seq<EntryView>) -> bool {
    ordered(s) && unique_ids(s)
}

/// Some entry of `s` has id `id`.
pub open spec fn has_id(s: Seq<EntryView>, id: Seq<char>) -> bool {
    exists|i: int| 0 <= i < s.len() && (#[trigger] s[i]).id == id
}

/// The position of the entry with id `id` (meaningful when `has_id(s, id)`).
pub open spec fn index_of_id(s: Seq<EntryView>, id: Seq<char>) -> int {
    choose|i: int| 0 <= i < s.len() && (#[trigger] s[i]).id == id
}

/// The entry with id `id`, if any.
pub open spec fn lookup(s: Seq<EntryView>, id: Seq<char>) -> Option<EntryView> {
    if has_id(s, id) {
        Some(s[index_of_id(s, id)])
    } else {
        None
    }
}

/// `s` without the entry whose id is `id`.
pub open spec fn without_id(s: Seq<EntryView>, id: Seq<char>) -> Seq<EntryView> {
    if has_id(s, id) {
        s.remove(index_of_id(s, id))
    } else {
        s
    }
}

/// `e` inserted into the ordered `s` in front of the first entry that does not
/// rank above it.
pub open spec fn insert_ordered(s: Seq<EntryView>, e: EntryView) -> Seq<EntryView>
    decreases s.len(),
{
    if s.len() == 0 {
        seq![e]
    } else if ranks_above(s[0], e) {
        seq![s[0]] + insert_ordered(s.drop_first(), e)
    } else {
        seq![e] + s
    }
}

/// `o` with a new timestamp and preview.
pub open spec fn refreshed(o: EntryView, timestamp_ms: i64, preview: Seq<char>) -> EntryView {
    EntryView {
        id: o.id,
        kind: o.kind,
        text: o.text,
        image_path: o.image_path,
        thumb_path: o.thumb_path,
        preview: preview,
        timestamp_ms: timestamp_ms,
        pinned: o.pinned,
    }
}

/// The row that inserting `e` leaves: the existing entry with `e`'s timestamp
/// and preview, or `e` itself when its id is new.
pub open spec fn merged_row(s: Seq<EntryView>, e: EntryView) -> EntryView {
    if has_id(s, e.id) {
        refreshed(s[index_of_id(s, e.id)], e.timestamp_ms, e.preview)
    } else {
        e
    }
}

/// The history after inserting `e`, before pruning.
pub open spec fn inserted(s: Seq<EntryView>, e: EntryView) -> Seq<EntryView> {
    insert_ordered(without_id(s, e.id), merged_row(s, e))
}

/// The first `max` entries of `s`.
pub open spec fn kept(s: Seq<EntryView>, max: nat) -> Seq<EntryView> {
    if s.len() > max {
        s.take(max as int)
    } else {
        s
    }
}

/// The entries of `s` past the first `max`.
pub open spec fn pruned(s: Seq<EntryView>, max: nat) -> Seq<EntryView> {
    if s.len() > max {
        s.skip(max as int)
    } else {
        seq![]
    }
}

/// The history after moving the entry with id `id` to timestamp `now_ms`.
pub open spec fn touched(s: Seq<EntryView>, id: Seq<char>, now_ms: i64) -> Seq<EntryView> {
    if has_id(s, id) {
        let o = s[index_of_id(s, id)];
        insert_ordered(s.remove(index_of_id(s, id)), refreshed(o, now_ms, o.preview))
    } else {
        s
    }
}

/// The history after pinning (or unpinning) the entry with id `id`: it moves
/// to its place in the order for its new pinned flag.
pub open spec fn repinned(s: Seq<EntryView>, id: Seq<char>, pinned: bool) -> Seq<EntryView> {
    if has_id(s, id) {
        let o = s[index_of_id(s, id)];
        insert_ordered(s.remove(index_of_id(s, id)), EntryView { pinned: pinned, ..o })
    } else {
        s
    }
}

/// `r` put into `s` as it is, replacing an entry with the same id.
pub open spec fn put(s: Seq<EntryView>, r: EntryView) -> Seq<EntryView> {
    insert_ordered(without_id(s, r.id), r)
}

/// The history rebuilt from stored rows, put in one after the other.
pub open spec fn restored(rows: Seq<EntryView>) -> Seq<EntryView>
    decreases rows.len(),
{
    if rows.len() == 0 {
        seq![]
    } else {
        put(restored(rows.drop_last()), rows.last())
    }
}

/// The views of a sequence of entries.
pub open spec fn views(v: Seq<Entry>) -> Seq<EntryView> {
    v.map_values(|e: Entry| e@)
}

/// `ranks_above` never holds both ways, and "does not rank above" is transitive.
pub proof fn lemma_rank_laws(a: EntryView, b: EntryView, c: EntryView)
    ensures
        !(ranks_above(a, b) && ranks_above(b, a)),
        !ranks_above(a, b) && !ranks_above(b, c) ==> !ranks_above(a, c),
        ranks_above(a, b) && ranks_above(b, c) ==> ranks_above(a, c),
        !ranks_above(a, b) && !ranks_above(b, a) ==> a.pinned == b.pinned && a.timestamp_ms
            == b.timestamp_ms,
{
}

/// With every entry before `k` ranking above `e`, and the one at `k` (if any)
/// not, ordered insertion puts `e` at position `k`.
pub proof fn lemma_insert_ordered_at(s: Seq<EntryView>, e: EntryView, k: int)
    requires
        0 <= k <= s.len(),
        forall|j: int| 0 <= j < k ==> ranks_above(#[trigger] s[j], e),
        k == s.len() || !ranks_above(s[k], e),
    ensures
        insert_ordered(s, e) == s.insert(k, e),
    decreases s.len(),
{
    if s.len() == 0 {
        assert(s.insert(k, e) =~= seq![e]);
    } else if k == 0 {
        assert(s.insert(k, e) =~= seq![e] + s);
    } else {
        assert(ranks_above(s[0], e));
        let t = s.drop_first();
        assert forall|j: int| 0 <= j < k - 1 implies ranks_above(#[trigger] t[j], e) by {
            assert(t[j] == s[j + 1]);
        }
        lemma_insert_ordered_at(t, e, k - 1);
        assert(seq![s[0]] + t.insert(k - 1, e) =~= s.insert(k, e));
    }
}

/// Inserting at the ordered position keeps the order, and keeps ids unique
/// when the new id is fresh.
pub proof fn lemma_insert_keeps_wf(s: Seq<EntryView>, e: EntryView, k: int)
    requires
        0 <= k <= s.len(),
        forall|j: int| 0 <= j < k ==> ranks_above(#[trigger] s[j], e),
        k == s.len() || !ranks_above(s[k], e),
        ordered(s),
    ensures
        ordered(s.insert(k, e)),
        unique_ids(s) && !has_id(s, e.id) ==> unique_ids(s.insert(k, e)),
{
    let t = s.insert(k, e);
    assert forall|i: int, j: int| 0 <= i < j < t.len() implies !ranks_above(
        #[trigger] t[j],
        #[trigger] t[i],
    ) by {
        if i < k && j < k {
            assert(t[i] == s[i] && t[j] == s[j]);
        } else if i < k && j == k {
            lemma_rank_laws(s[i], e, e);
        } else if i < k {
            assert(t[i] == s[i] && t[j] == s[j - 1]);
            lemma_rank_laws(s[j - 1], s[i], e);
            lemma_rank_laws(s[i], e, s[j - 1]);
            if k < s.len() {
                lemma_rank_laws(s[j - 1], s[k], e);
            }
        } else if i == k {
            assert(t[j] == s[j - 1]);
            if j - 1 > k {
                lemma_rank_laws(s[j - 1], s[k], e);
            }
        } else {
            assert(t[i] == s[i - 1] && t[j] == s[j - 1]);
        }
    }
    if unique_ids(s) && !has_id(s, e.id) {
        assert forall|i: int, j: int| 0 <= i < j < t.len() implies (#[trigger] t[i]).id != (
        #[trigger] t[j]).id by {
            if i < k && j < k {
                assert(t[i] == s[i] && t[j] == s[j]);
            } else if i < k && j == k {
                assert(s[i].id != e.id);
            } else if i < k {
                assert(t[i] == s[i] && t[j] == s[j - 1]);
            } else if i == k {
                assert(t[j] == s[j - 1]);
                assert(s[j - 1].id != e.id);
            } else {
                assert(t[i] == s[i - 1] && t[j] == s[j - 1]);
            }
        }
    }
}

/// Removing one entry keeps a history well-formed and drops exactly that id.
pub proof fn lemma_remove_keeps_wf(s: Seq<EntryView>, i: int)
    requires
        0 <= i < s.len(),
        history_wf(s),
    ensures
        history_wf(s.remove(i)),
        !has_id(s.remove(i), s[i].id),
        forall|id: Seq<char>| id != s[i].id ==> (has_id(s.remove(i), id) <==> has_id(s, id)),
{
    let t = s.remove(i);
    assert forall|a: int, b: int| 0 <= a < b < t.len() implies !ranks_above(
        #[trigger] t[b],
        #[trigger] t[a],
    ) by {
        let a2 = if a < i { a } else { a + 1 };
        let b2 = if b < i { b } else { b + 1 };
        assert(t[a] == s[a2] && t[b] == s[b2]);
    }
    assert forall|a: int, b: int| 0 <= a < b < t.len() implies (#[trigger] t[a]).id != (
    #[trigger] t[b]).id by {
        let a2 = if a < i { a } else { a + 1 };
        let b2 = if b < i { b } else { b + 1 };
        assert(t[a] == s[a2] && t[b] == s[b2]);
    }
    if has_id(t, s[i].id) {
        let a = choose|a: int| 0 <= a < t.len() && (#[trigger] t[a]).id == s[i].id;
        let a2 = if a < i { a } else { a + 1 };
        assert(t[a] == s[a2]);
    }
    assert forall|id: Seq<char>| id != s[i].id implies (has_id(t, id) <==> has_id(s, id)) by {
        if has_id(s, id) {
            let a = choose|a: int| 0 <= a < s.len() && (#[trigger] s[a]).id == id;
            let a2 = if a < i { a } else { a - 1 };
            assert(t[a2] == s[a]);
        }
        if has_id(t, id) {
            let a = choose|a: int| 0 <= a < t.len() && (#[trigger] t[a]).id == id;
            let a2 = if a < i { a } else { a + 1 };
            assert(t[a] == s[a2]);
        }
    }
}

/// In a history with unique ids the position of an id is the only one holding it.
pub proof fn lemma_index_of_id(s: Seq<EntryView>, i: int)
    requires
        unique_ids(s),
        0 <= i < s.len(),
    ensures
        has_id(s, s[i].id),
        index_of_id(s, s[i].id) == i,
{
    assert(has_id(s, s[i].id));
    let j = index_of_id(s, s[i].id);
    if j != i {
        if j < i {
            assert(s[j].id != s[i].id);
        } else {
            assert(s[i].id != s[j].id);
        }
    }
}

/// A prefix of a well-formed history is well-formed.
pub proof fn lemma_take_keeps_wf(s: Seq<EntryView>, n: int)
    requires
        history_wf(s),
        0 <= n <= s.len(),
    ensures
        history_wf(s.take(n)),
{
    let t = s.take(n);
    assert forall|a: int, b: int| 0 <= a < b < t.len() implies !ranks_above(
        #[trigger] t[b],
        #[trigger] t[a],
    ) by {
        assert(t[a] == s[a] && t[b] == s[b]);
    }
    assert forall|a: int, b: int| 0 <= a < b < t.len() implies (#[trigger] t[a]).id != (
    #[trigger] t[b]).id by {
        assert(t[a] == s[a] && t[b] == s[b]);
    }
}

/// Ordered insertion places `e` at some position `k` with every earlier entry
/// ranking above it and the entry at `k` (if any) not.
pub proof fn lemma_insert_ordered_shape(s: Seq<EntryView>, e: EntryView) -> (k: int)
    ensures
        0 <= k <= s.len(),
        insert_ordered(s, e) == s.insert(k, e),
        forall|j: int| 0 <= j < k ==> ranks_above(#[trigger] s[j], e),
        k == s.len() || !ranks_above(s[k], e),
    decreases s.len(),
{
    if s.len() == 0 {
        assert(s.insert(0, e) =~= seq![e]);
        0
    } else if !ranks_above(s[0], e) {
        assert(s.insert(0, e) =~= seq![e] + s);
        0
    } else {
        let t = s.drop_first();
        let k2 = lemma_insert_ordered_shape(t, e);
        assert(seq![s[0]] + t.insert(k2, e) =~= s.insert(k2 + 1, e));
        assert forall|j: int| 0 <= j < k2 + 1 implies ranks_above(#[trigger] s[j], e) by {
            if j > 0 {
                assert(s[j] == t[j - 1]);
            }
        }
        if k2 + 1 < s.len() {
            assert(s[k2 + 1] == t[k2]);
        }
        k2 + 1
    }
}

/// Ordered insertion of a fresh id into a well-formed history gives a
/// well-formed history one entry longer that holds the new entry.
pub proof fn lemma_insert_ordered_wf(s: Seq<EntryView>, e: EntryView)
    requires
        history_wf(s),
        !has_id(s, e.id),
    ensures
        history_wf(insert_ordered(s, e)),
        insert_ordered(s, e).len() == s.len() + 1,
        has_id(insert_ordered(s, e), e.id),
        forall|id: Seq<char>| id != e.id ==> (has_id(insert_ordered(s, e), id) <==> has_id(s, id)),
{
    let k = lemma_insert_ordered_shape(s, e);
    lemma_insert_keeps_wf(s, e, k);
    let t = s.insert(k, e);
    assert(t[k] == e);
    assert forall|id: Seq<char>| id != e.id implies (has_id(t, id) <==> has_id(s, id)) by {
        if has_id(s, id) {
            let a = choose|a: int| 0 <= a < s.len() && (#[trigger] s[a]).id == id;
            let a2 = if a < k { a } else { a + 1 };
            assert(t[a2] == s[a]);
        }
        if has_id(t, id) {
            let a = choose|a: int| 0 <= a < t.len() && (#[trigger] t[a]).id == id;
            if a < k {
                assert(t[a] == s[a]);
            } else if a > k {
                assert(t[a] == s[a - 1]);
            }
        }
    }
}

/// Law (deduplication): inserting content keeps the history well-formed, the
/// content's id is then held exactly once, every other id stays as it was, and
/// the history grows by one row only when the id was new; identical content
/// never creates a second row.
pub proof fn law_insert_dedups(s: Seq<EntryView>, e: EntryView)
    requires
        history_wf(s),
    ensures
        history_wf(inserted(s, e)),
        has_id(inserted(s, e), e.id),
        inserted(s, e).len() == if has_id(s, e.id) { s.len() } else { s.len() + 1 },
        forall|id: Seq<char>| id != e.id ==> (has_id(inserted(s, e), id) <==> has_id(s, id)),
        lookup(inserted(s, e), e.id) == Some(merged_row(s, e)),
{
    let w = without_id(s, e.id);
    if has_id(s, e.id) {
        lemma_remove_keeps_wf(s, index_of_id(s, e.id));
    }
    assert(merged_row(s, e).id == e.id);
    lemma_insert_ordered_wf(w, merged_row(s, e));
    let t = inserted(s, e);
    let k = lemma_insert_ordered_shape(w, merged_row(s, e));
    assert(t[k] == merged_row(s, e));
    lemma_index_of_id(t, k);
}

/// Law (size limit): after pruning to `max` the history holds at most `max`
/// entries, and the kept entries followed by the pruned ones are the history
/// before pruning, in order.
pub proof fn law_prune_bounds(s: Seq<EntryView>, max: nat)
    ensures
        kept(s, max).len() <= max,
        kept(s, max) + pruned(s, max) == s,
        kept(s, max).len() == if s.len() > max { max as int } else { s.len() as int },
        history_wf(s) ==> history_wf(kept(s, max)),
        history_wf(s) ==> forall|i: int, j: int|
            0 <= i < kept(s, max).len() && 0 <= j < pruned(s, max).len() ==> !ranks_above(
                #[trigger] pruned(s, max)[j],
                #[trigger] kept(s, max)[i],
            ),
{
    if s.len() > max {
        assert(s.take(max as int) + s.skip(max as int) =~= s);
        if history_wf(s) {
            lemma_take_keeps_wf(s, max as int);
            assert forall|i: int, j: int|
                0 <= i < kept(s, max).len() && 0 <= j < pruned(s, max).len() implies !ranks_above(
                #[trigger] pruned(s, max)[j],
                #[trigger] kept(s, max)[i],
            ) by {
                assert(kept(s, max)[i] == s[i]);
                assert(pruned(s, max)[j] == s[max + j]);
            }
        }
    } else {
        assert(s + Seq::<EntryView>::empty() =~= s);
    }
}

/// Law (most recent first): content inserted with a timestamp no older than any
/// in a history without pinned entries, and not pinned itself, goes to the top.
pub proof fn law_newest_on_top(s: Seq<EntryView>, e: EntryView)
    requires
        history_wf(s),
        !e.pinned,
        forall|i: int| 0 <= i < s.len() ==> !(#[trigger] s[i]).pinned && s[i].timestamp_ms
            <= e.timestamp_ms,
    ensures
        inserted(s, e)[0] == merged_row(s, e),
        inserted(s, e)[0].id == e.id,
{
    let w = without_id(s, e.id);
    let m = merged_row(s, e);
    if has_id(s, e.id) {
        let i = index_of_id(s, e.id);
        assert(!s[i].pinned);
        assert forall|j: int| 0 <= j < w.len() implies !(#[trigger] w[j]).pinned && w[j].timestamp_ms
            <= e.timestamp_ms by {
            if j < i {
                assert(w[j] == s[j]);
            } else {
                assert(w[j] == s[j + 1]);
            }
        }
    }
    let k = lemma_insert_ordered_shape(w, m);
    if k > 0 {
        assert(ranks_above(w[0], m));
    }
    assert(inserted(s, e)[0] == m);
}

/// Law (removal): after removing an id the history is still well-formed, holds
/// no entry with that id, and every other id stays as it was; a second removal
/// of the same id finds nothing.
pub proof fn law_remove_forgets(s: Seq<EntryView>, id: Seq<char>)
    requires
        history_wf(s),
    ensures
        history_wf(without_id(s, id)),
        lookup(without_id(s, id), id) is None,
        without_id(without_id(s, id), id) == without_id(s, id),
        forall|other: Seq<char>| other != id ==> (has_id(without_id(s, id), other) <==> has_id(
            s,
            other,
        )),
        without_id(s, id).len() == if has_id(s, id) { s.len() - 1 } else { s.len() as int },
{
    if has_id(s, id) {
        let i = index_of_id(s, id);
        lemma_remove_keeps_wf(s, i);
    }
}

/// Law (promotion): touching an entry keeps the history well-formed with the
/// same ids and the same number of entries.
pub proof fn law_touch_keeps_rows(s: Seq<EntryView>, id: Seq<char>, now_ms: i64)
    requires
        history_wf(s),
    ensures
        history_wf(touched(s, id, now_ms)),
        touched(s, id, now_ms).len() == s.len(),
        forall|other: Seq<char>| has_id(touched(s, id, now_ms), other) <==> has_id(s, other),
{
    if has_id(s, id) {
        let i = index_of_id(s, id);
        let o = s[i];
        lemma_remove_keeps_wf(s, i);
        let r = refreshed(o, now_ms, o.preview);
        lemma_insert_ordered_wf(s.remove(i), r);
        assert(has_id(s, o.id));
    }
}

/// Law (selection promotes): touching a stored entry with a time no older than
/// any in a history without pinned entries moves it to the top.
pub proof fn law_touch_to_top(s: Seq<EntryView>, id: Seq<char>, now_ms: i64)
    requires
        history_wf(s),
        has_id(s, id),
        forall|i: int| 0 <= i < s.len() ==> !(#[trigger] s[i]).pinned && s[i].timestamp_ms <= now_ms,
    ensures
        touched(s, id, now_ms)[0].id == id,
        touched(s, id, now_ms)[0].timestamp_ms == now_ms,
{
    let i = index_of_id(s, id);
    let o = s[i];
    let w = s.remove(i);
    let r = refreshed(o, now_ms, o.preview);
    assert forall|j: int| 0 <= j < w.len() implies !(#[trigger] w[j]).pinned && w[j].timestamp_ms
        <= now_ms by {
        if j < i {
            assert(w[j] == s[j]);
        } else {
            assert(w[j] == s[j + 1]);
        }
    }
    let k = lemma_insert_ordered_shape(w, r);
    if k > 0 {
        assert(ranks_above(w[0], r));
    }
}

/// Law (pinning): pinning or unpinning keeps the history well-formed with the
/// same ids and size, and the entry then carries the new flag; a pinned entry
/// ranks above every unpinned one.
pub proof fn law_pin_keeps_rows(s: Seq<EntryView>, id: Seq<char>, pinned: bool)
    requires
        history_wf(s),
    ensures
        history_wf(repinned(s, id, pinned)),
        repinned(s, id, pinned).len() == s.len(),
        forall|other: Seq<char>| has_id(repinned(s, id, pinned), other) <==> has_id(s, other),
        has_id(s, id) ==> (lookup(repinned(s, id, pinned), id) matches Some(v) && v.pinned == pinned),
        forall|i: int, j: int|
            0 <= i < j < repinned(s, id, pinned).len() && #[trigger] repinned(s, id, pinned)[j].pinned
                ==> #[trigger] repinned(s, id, pinned)[i].pinned,
{
    let t = repinned(s, id, pinned);
    if has_id(s, id) {
        let i = index_of_id(s, id);
        let o = s[i];
        lemma_remove_keeps_wf(s, i);
        let r = EntryView { pinned: pinned, ..o };
        lemma_insert_ordered_wf(s.remove(i), r);
        assert(has_id(s, o.id));
        let k = lemma_insert_ordered_shape(s.remove(i), r);
        assert(t[k] == r);
        lemma_index_of_id(t, k);
    }
    assert forall|i: int, j: int| 0 <= i < j < t.len() && #[trigger] t[j].pinned implies #[trigger] t[i].pinned by {
        assert(!ranks_above(t[j], t[i]));
    }
}

/// Law (read after write): with room for at least one entry, content inserted
/// unpinned with a timestamp no older than any in a history without pinned
/// entries survives pruning, and looking its id up gives the stored row.
pub proof fn law_read_after_write(s: Seq<EntryView>, e: EntryView, max: nat)
    requires
        history_wf(s),
        max >= 1,
        !e.pinned,
        forall|i: int| 0 <= i < s.len() ==> !(#[trigger] s[i]).pinned && s[i].timestamp_ms
            <= e.timestamp_ms,
    ensures
        lookup(kept(inserted(s, e), max), e.id) == Some(merged_row(s, e)),
{
    law_insert_dedups(s, e);
    law_newest_on_top(s, e);
    law_prune_bounds(inserted(s, e), max);
    let t = kept(inserted(s, e), max);
    assert(t[0] == inserted(s, e)[0]);
    lemma_index_of_id(t, 0);
}

/// A history whose entries each rank strictly above all later ones.
pub open spec fn strictly_ordered(s: Seq<EntryView>) -> bool {
    forall|i: int, j: int| 0 <= i < j < s.len() ==> ranks_above(#[trigger] s[i], #[trigger] s[j])
}

/// Law (persistence round trip): a well-formed history with no two entries of
/// equal rank, read back row by row in its own order, is rebuilt exactly.
pub proof fn law_restore_roundtrip(s: Seq<EntryView>)
    requires
        history_wf(s),
        strictly_ordered(s),
    ensures
        restored(s) == s,
    decreases s.len(),
{
    if s.len() > 0 {
        let t = s.drop_last();
        let r = s.last();
        lemma_take_keeps_wf(s, s.len() - 1);
        assert(t == s.take(s.len() - 1));
        assert forall|i: int, j: int| 0 <= i < j < t.len() implies ranks_above(
            #[trigger] t[i],
            #[trigger] t[j],
        ) by {
            assert(t[i] == s[i] && t[j] == s[j]);
        }
        law_restore_roundtrip(t);
        if has_id(t, r.id) {
            let a = choose|a: int| 0 <= a < t.len() && (#[trigger] t[a]).id == r.id;
            assert(s[a] == t[a]);
            assert(s[a].id != s[s.len() - 1].id);
        }
        assert(without_id(t, r.id) == t);
        assert forall|j: int| 0 <= j < t.len() implies ranks_above(#[trigger] t[j], r) by {
            assert(t[j] == s[j]);
        }
        lemma_insert_ordered_at(t, r, t.len() as int);
        assert(t.insert(t.len() as int, r) =~= s);
    }
}

/// Handle to the clipboard history.
pub struct Store {
    entries: Vec<Entry>,
}

impl View for Store {
    type V = Seq<EntryView>;

    closed spec fn view(&self) -> Seq<EntryView> {
        views(self.entries@)
    }
}

impl Store {
    /// The history is ordered and its ids are unique.
    pub open spec fn wf(&self) -> bool {
        history_wf(self@)
    }

    /// Open an empty history held in memory.
    pub fn open_in_memory() -> (r: Result<Store, KlippoError>)
        ensures
            r matches Ok(s) && s.wf() && s@ == Seq::<EntryView>::empty(),
    {
        let s = Store { entries: Vec::new() };
        assert(s@ =~= Seq::<EntryView>::empty());
        Ok(s)
    }

    /// Rebuild a history from stored rows (for example those read back from a
    /// database), each row kept as it is.
    pub fn restore(rows: Vec<Entry>) -> (r: Store)
        ensures
            r.wf(),
            r@ == restored(views(rows@)),
    {
        let mut s = Store { entries: Vec::new() };
        assert(s@ =~= Seq::<EntryView>::empty());
        let ghost rv = views(rows@);
        for row in it: rows
            invariant
                s.wf(),
                rv == views(rows@),
                it.seq() == rows@,
                s@ == restored(rv.take(it.index() as int)),
        {
            let ghost k = it.index() as int;
            let ghost before = s@;
            assert(rv.take(k + 1).drop_last() =~= rv.take(k));
            assert(rv.take(k + 1).last() == row@);
            match s.position(row.id.as_str()) {
                Some(p) => {
                    proof {
                        lemma_remove_keeps_wf(before, p as int);
                    }
                    s.entries.remove(p);
                    assert(s@ =~= before.remove(p as int));
                },
                None => {},
            }
            assert(s@ == without_id(before, row@.id));
            s.insert_entry(row);
        }
        assert(rv.take(rows@.len() as int) =~= rv);
        s
    }

    /// Position of the entry with id `id`.
    fn position(&self, id: &str) -> (r: Option<usize>)
        requires
            self.wf(),
        ensures
            r matches Some(i) ==> i < self@.len() && self@[i as int].id == id@ && index_of_id(
                self@,
                id@,
            ) == i && has_id(self@, id@),
            r is None ==> !has_id(self@, id@),
    {
        let mut i: usize = 0;
        while i < self.entries.len()
            invariant
                i <= self.entries.len(),
                self.wf(),
                forall|j: int| 0 <= j < i ==> (#[trigger] self@[j]).id != id@,
            decreases self.entries.len() - i,
        {
            if crate::text::str_eq(self.entries[i].id.as_str(), id) {
                proof {
                    assert(self@[i as int] == self.entries@[i as int]@);
                    lemma_index_of_id(self@, i as int);
                }
                return Some(i);
            }
            assert(self@[i as int] == self.entries@[i as int]@);
            i = i + 1;
        }
        None
    }

    /// Put `e` at its ordered place; its id must not be present yet.
    fn insert_entry(&mut self, e: Entry)
        requires
            old(self).wf(),
            !has_id(old(self)@, e@.id),
        ensures
            final(self).wf(),
            final(self)@ == insert_ordered(old(self)@, e@),
    {
        let ghost s = self@;
        let ghost ev = e@;
        let mut k: usize = 0;
        while k < self.entries.len()
            invariant
                k <= self.entries.len(),
                self@ == s,
                forall|j: int| 0 <= j < k ==> ranks_above(#[trigger] s[j], ev),
                ev == e@,
            ensures
                k <= self.entries.len(),
                self@ == s,
                forall|j: int| 0 <= j < k ==> ranks_above(#[trigger] s[j], ev),
                k == s.len() || !ranks_above(s[k as int], ev),
            decreases self.entries.len() - k,
        {
            let c = &self.entries[k];
            assert(s[k as int] == self.entries@[k as int]@);
            let above = (c.pinned && !e.pinned) || (c.pinned == e.pinned && c.timestamp_ms
                > e.timestamp_ms);
            if !above {
                break;
            }
            k = k + 1;
        }
        proof {
            lemma_insert_ordered_at(s, ev, k as int);
            lemma_insert_keeps_wf(s, ev, k as int);
        }
        self.entries.insert(k, e);
        assert(self@ =~= s.insert(k as int, ev));
    }

    /// Insert `entry`, or bump the timestamp and preview of existing identical
    /// content, then prune to `max_items`. Returns the entries removed by
    /// pruning (for image clean-up).
    pub fn upsert(&mut self, entry: &Entry, max_items: u32) -> (r: Result<Vec<Entry>, KlippoError>)
        requires
            old(self).wf(),
        ensures
            final(self).wf(),
            final(self)@ == kept(inserted(old(self)@, entry@), max_items as nat),
            r matches Ok(p) && views(p@) == pruned(inserted(old(self)@, entry@), max_items as nat),
    {
        let ghost s = self@;
        let row = match self.position(entry.id.as_str()) {
            Some(i) => {
                proof {
                    lemma_remove_keeps_wf(s, i as int);
                }
                let old_row = self.entries.remove(i);
                assert(self@ =~= s.remove(i as int));
                Entry {
                    id: old_row.id,
                    kind: old_row.kind,
                    text: old_row.text,
                    image_path: old_row.image_path,
                    thumb_path: old_row.thumb_path,
                    preview: entry.preview.clone(),
                    timestamp_ms: entry.timestamp_ms,
                    pinned: old_row.pinned,
                }
            },
            None => entry.duplicate(),
        };
        assert(self@ == without_id(s, entry@.id));
        assert(row@ == merged_row(s, entry@));
        self.insert_entry(row);
        Ok(self.prune(max_items))
    }

    /// Keep only the first `max_items` entries; return the others in order.
    fn prune(&mut self, max_items: u32) -> (r: Vec<Entry>)
        requires
            old(self).wf(),
        ensures
            final(self).wf(),
            final(self)@ == kept(old(self)@, max_items as nat),
            views(r@) == pruned(old(self)@, max_items as nat),
    {
        let ghost s = self@;
        if self.entries.len() as u64 > max_items as u64 {
            let rest = self.entries.split_off(max_items as usize);
            proof {
                lemma_take_keeps_wf(s, max_items as int);
            }
            assert(self@ =~= s.take(max_items as int));
            assert(views(rest@) =~= s.skip(max_items as int));
            rest
        } else {
            let rest: Vec<Entry> = Vec::new();
            assert(views(rest@) =~= Seq::<EntryView>::empty());
            rest
        }
    }

    /// Promote an existing entry to timestamp `now_ms` (top of the order unless
    /// pinned entries or newer timestamps exist).
    pub fn touch(&mut self, id: &str, now_ms: i64) -> (r: Result<(), KlippoError>)
        requires
            old(self).wf(),
        ensures
            final(self).wf(),
            final(self)@ == touched(old(self)@, id@, now_ms),
            r is Ok,
    {
        let ghost s = self@;
        match self.position(id) {
            Some(i) => {
                proof {
                    lemma_remove_keeps_wf(s, i as int);
                }
                let mut e = self.entries.remove(i);
                assert(self@ =~= s.remove(i as int));
                e.timestamp_ms = now_ms;
                self.insert_entry(e);
            },
            None => {},
        }
        Ok(())
    }

    /// Pin or unpin the entry with id `id`; unknown ids change nothing.
    pub fn set_pinned(&mut self, id: &str, pinned: bool) -> (r: Result<(), KlippoError>)
        requires
            old(self).wf(),
        ensures
            final(self).wf(),
            final(self)@ == repinned(old(self)@, id@, pinned),
            r is Ok,
    {
        let ghost s = self@;
        match self.position(id) {
            Some(i) => {
                proof {
                    lemma_remove_keeps_wf(s, i as int);
                }
                let mut e = self.entries.remove(i);
                assert(self@ =~= s.remove(i as int));
                e.pinned = pinned;
                self.insert_entry(e);
            },
            None => {},
        }
        Ok(())
    }

    /// The first `limit` entries in order (pinned first, then newest first).
    pub fn list(&self, limit: u32) -> (r: Result<Vec<Entry>, KlippoError>)
        requires
            self.wf(),
        ensures
            r matches Ok(v) && views(v@) == kept(self@, limit as nat) && history_wf(views(v@)),
    {
        proof {
            law_prune_bounds(self@, limit as nat);
        }
        let mut out: Vec<Entry> = Vec::new();
        let mut i: usize = 0;
        while i < self.entries.len() && (i as u64) < (limit as u64)
            invariant
                i <= self.entries.len(),
                i <= limit,
                views(out@) == self@.take(i as int),
            decreases self.entries.len() - i,
        {
            let ghost before = out@;
            let d = self.entries[i].duplicate();
            out.push(d);
            assert(self@[i as int] == self.entries@[i as int]@);
            assert(views(out@) =~= views(before).push(d@));
            assert(self@.take(i + 1) =~= self@.take(i as int).push(self@[i as int]));
            i = i + 1;
        }
        assert(self@.take(self@.len() as int) =~= self@);
        Ok(out)
    }

    /// Fetch a single entry by id.
    pub fn get(&self, id: &str) -> (r: Result<Option<Entry>, KlippoError>)
        requires
            self.wf(),
        ensures
            r matches Ok(o) && (match o {
                Some(e) => lookup(self@, id@) == Some(e@),
                None => lookup(self@, id@) is None,
            }),
    {
        match self.position(id) {
            Some(i) => Ok(Some(self.entries[i].duplicate())),
            None => Ok(None),
        }
    }

    /// Remove one entry, returning it (so its image files can be cleaned up).
    pub fn remove(&mut self, id: &str) -> (r: Result<Option<Entry>, KlippoError>)
        requires
            old(self).wf(),
        ensures
            final(self).wf(),
            final(self)@ == without_id(old(self)@, id@),
            r matches Ok(o) && (match o {
                Some(e) => lookup(old(self)@, id@) == Some(e@),
                None => lookup(old(self)@, id@) is None,
            }),
    {
        let ghost s = self@;
        match self.position(id) {
            Some(i) => {
                proof {
                    lemma_remove_keeps_wf(s, i as int);
                }
                let e = self.entries.remove(i);
                assert(self@ =~= s.remove(i as int));
                Ok(Some(e))
            },
            None => Ok(None),
        }
    }

    /// Remove every entry, returning them all in order (for image clean-up).
    pub fn clear(&mut self) -> (r: Result<Vec<Entry>, KlippoError>)
        requires
            old(self).wf(),
        ensures
            final(self).wf(),
            final(self)@ == Seq::<EntryView>::empty(),
            r matches Ok(v) && views(v@) == old(self)@,
    {
        let mut all: Vec<Entry> = Vec::new();
        std::mem::swap(&mut all, &mut self.entries);
        assert(self@ =~= Seq::<EntryView>::empty());
        Ok(all)
    }

    /// Number of stored entries.
    pub fn count(&self) -> (r: Result<u32, KlippoError>)
        ensures
            r matches Ok(n) && n == self@.len() as u32,
    {
        Ok(self.entries.len() as u32)
    }
}

} // verus!

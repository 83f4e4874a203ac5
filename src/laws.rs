use vstd::prelude::*;

use crate::registry::{has_id, index_of, lemma_put_unique, lemma_remove_unique, unique_ids, valid_sender, RegistryView};
use crate::types::{ClipboardItem, Device};
use crate::watcher::{
    added, cap, distinct_contents, other_contents, recorded, WatcherView, ITEM_HISTORY_CAP, TEXT_HISTORY_CAP,
};

verus! {

/// A device that is not pending can be neither accepted nor denied: both
/// fail and leave the registry as it was.
pub proof fn unknown_device_is_not_accepted_or_denied(r: RegistryView, id: u32)
    requires
        !has_id(r.pending, id),
    ensures
        r.accept_step(id) == (r, None::<Device>),
        r.deny_step(id) == (r, None::<Device>),
{
}

/// Accepting a pending device twice leaves exactly one connected entry of
/// its identifier and none pending; the second acceptance fails and changes
/// nothing.
pub proof fn accept_twice_keeps_one_entry(r: RegistryView, id: u32)
    requires
        r.wf(),
        has_id(r.pending, id),
    ensures
        ({
            let (r1, d1) = r.accept_step(id);
            let (r2, d2) = r1.accept_step(id);
            &&& d1 is Some
            &&& !has_id(r1.pending, id)
            &&& exists|k: int| 0 <= k < r1.connected.len() && #[trigger] r1.connected[k].id == id && forall|j: int|
                0 <= j < r1.connected.len() && j != k ==> #[trigger] r1.connected[j].id != id
            &&& d2 is None
            &&& r2 == r1
        }),
{
    let k = index_of(r.pending, id);
    let d = crate::registry::accepted(r.pending[k]);
    lemma_remove_unique(r.pending, k);
    lemma_put_unique(r.connected, d);
    let (r1, _) = r.accept_step(id);
    let c = r1.connected;
    let m = index_of(c, id);
    assert(0 <= m < c.len() && c[m].id == id);
    assert forall|j: int| 0 <= j < c.len() && j != m implies #[trigger] c[j].id != id by {
        assert(c[j].id != c[m].id);
    }
}

/// The sender check: it fails on an empty connected map and on an unknown
/// identifier, and on a known one it holds exactly when the address matches
/// the stored one.
pub proof fn sender_check_matches_id_and_address(connected: Seq<Device>, id: u32, ip: Seq<char>)
    requires
        unique_ids(connected),
    ensures
        connected.len() == 0 ==> !valid_sender(connected, id, ip),
        !has_id(connected, id) ==> !valid_sender(connected, id, ip),
        forall|k: int| 0 <= k < connected.len() && #[trigger] connected[k].id == id ==> (valid_sender(connected, id, ip)
            <==> connected[k].ip@ == ip),
{
    assert forall|k: int| 0 <= k < connected.len() && #[trigger] connected[k].id == id implies (valid_sender(
        connected,
        id,
        ip,
    ) <==> connected[k].ip@ == ip) by {
        crate::registry::lemma_index_of(connected, k);
    }
}

proof fn lemma_kept_is_from(h: Seq<ClipboardItem>, content: Seq<char>, i: int)
    requires
        0 <= i < other_contents(h, content).len(),
    ensures
        exists|a: int| 0 <= a < h.len() && h[a] == other_contents(h, content)[i],
    decreases h.len(),
{
    if h.len() == 0 {
        assert(other_contents(h, content).len() == 0) by {
            reveal(Seq::filter);
        }
    } else {
        let rest = h.drop_last();
        let f = other_contents(rest, content);
        assert(other_contents(h, content) == if h.last().content@ != content { f.push(h.last()) } else { f }) by {
            reveal(Seq::filter);
        }
        if i < f.len() {
            lemma_kept_is_from(rest, content, i);
            let a = choose|a: int| 0 <= a < rest.len() && rest[a] == f[i];
            assert(h[a] == rest[a]);
        } else {
            assert(h[h.len() - 1] == other_contents(h, content)[i]);
        }
    }
}

proof fn lemma_filter_distinct(h: Seq<ClipboardItem>, content: Seq<char>)
    requires
        distinct_contents(h),
    ensures
        distinct_contents(other_contents(h, content)),
    decreases h.len(),
{
    if h.len() > 0 {
        let rest = h.drop_last();
        let last = h.last();
        assert forall|i: int, j: int| 0 <= i < rest.len() && 0 <= j < rest.len() && i != j implies
            #[trigger] rest[i].content@ != #[trigger] rest[j].content@ by {
            assert(rest[i] == h[i] && rest[j] == h[j]);
        }
        lemma_filter_distinct(rest, content);
        let f = other_contents(rest, content);
        assert(other_contents(h, content) == if last.content@ != content { f.push(last) } else { f }) by {
            reveal(Seq::filter);
        }
        if last.content@ != content {
            let g = f.push(last);
            assert forall|i: int, j: int| 0 <= i < g.len() && 0 <= j < g.len() && i != j implies
                #[trigger] g[i].content@ != #[trigger] g[j].content@ by {
                if i < f.len() && j < f.len() {
                    assert(g[i] == f[i] && g[j] == f[j]);
                } else {
                    let o = if i == f.len() { j } else { i };
                    assert(g[o] == f[o]);
                    lemma_kept_is_from(rest, content, o);
                    let a = choose|a: int| 0 <= a < rest.len() && rest[a] == f[o];
                    assert(h[a] == f[o]);
                    assert(h[h.len() - 1].content@ != h[a].content@);
                }
            }
        }
    }
}

/// A text recorded in the history comes first, and no other entry keeps its
/// content; a history without repeated contents stays so.
pub proof fn recorded_history_has_no_repeated_content(h: Seq<ClipboardItem>, item: ClipboardItem)
    ensures
        recorded(h, item)[0] == item,
        forall|i: int| 1 <= i < recorded(h, item).len() ==> #[trigger] recorded(h, item)[i].content@ != item.content@,
        distinct_contents(h) ==> distinct_contents(recorded(h, item)),
{
    let f = other_contents(h, item.content@);
    let s = seq![item] + f;
    let r = recorded(h, item);
    assert(r == cap(s, TEXT_HISTORY_CAP as nat));
    assert forall|i: int| 1 <= i < r.len() implies #[trigger] r[i].content@ != item.content@ by {
        assert(r[i] == s[i] && s[i] == f[i - 1]);
    }
    if distinct_contents(h) {
        lemma_filter_distinct(h, item.content@);
        assert forall|i: int, j: int| 0 <= i < r.len() && 0 <= j < r.len() && i != j implies
            #[trigger] r[i].content@ != #[trigger] r[j].content@ by {
            assert(r[i] == s[i] && r[j] == s[j]);
            if i > 0 && j > 0 {
                assert(s[i] == f[i - 1] && s[j] == f[j - 1]);
            }
        }
    }
}

/// However many items are recorded, the text history holds at most 50, and
/// the history fed through the generic entry point at most 100.
pub proof fn history_stays_within_caps(h: Seq<ClipboardItem>, item: ClipboardItem)
    ensures
        recorded(h, item).len() <= TEXT_HISTORY_CAP,
        added(h, item).len() <= ITEM_HISTORY_CAP,
{
}

/// The text history after each of `items` is recorded in turn, starting
/// from `h`.
pub open spec fn recorded_all(h: Seq<ClipboardItem>, items: Seq<ClipboardItem>) -> Seq<ClipboardItem>
    decreases items.len(),
{
    if items.len() == 0 {
        h
    } else {
        recorded(recorded_all(h, items.drop_last()), items.last())
    }
}

/// After one or more recordings the text history holds at most 50 items, and
/// recordings that start from a history without repeated contents never
/// produce one with a repeated content.
pub proof fn any_number_of_recordings(h: Seq<ClipboardItem>, items: Seq<ClipboardItem>)
    ensures
        items.len() > 0 ==> recorded_all(h, items).len() <= TEXT_HISTORY_CAP,
        distinct_contents(h) ==> distinct_contents(recorded_all(h, items)),
    decreases items.len(),
{
    if items.len() > 0 {
        any_number_of_recordings(h, items.drop_last());
        recorded_history_has_no_repeated_content(recorded_all(h, items.drop_last()), items.last());
    }
}

/// A text written by an inbound sync is not taken for a local change by the
/// next tick that reads it, and that tick clears the flag.
pub proof fn synced_write_is_not_echoed(w: WatcherView, current: Option<Seq<char>>, incoming: Seq<char>)
    ensures
        ({
            let (w1, write) = w.inbound_step(current, incoming);
            let (w2, genuine) = w1.observe_step(incoming);
            write ==> {
                &&& w1.suppress_next_change
                &&& !genuine
                &&& !w2.suppress_next_change
                &&& w2.last_seen == incoming
                &&& w2.history == w.history
            }
        }),
{
}

/// While the flag is set, the next tick that reads the clipboard sees no
/// genuine change, whatever it reads, and clears the flag.
pub proof fn flagged_tick_is_not_a_change(w: WatcherView, text: Seq<char>)
    requires
        w.suppress_next_change,
    ensures
        !w.observe_step(text).1,
        !w.observe_step(text).0.suppress_next_change,
        w.observe_step(text).0.history == w.history,
{
}

} // verus!

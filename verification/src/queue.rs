use vstd::prelude::*;
use vstd::seq_lib::*;

use crate::window::{SwayNodeId, Window, WindowEvent, WindowView};

verus! {

/// True when no two entries share an id: the store's invariant.
pub open spec fn ids_unique(s: Seq<WindowView>) -> bool {
    forall|i: int, j: int| 0 <= i < j < s.len() ==> s[i].id != s[j].id
}

/// Every entry whose id is `id`, removed; the relative order of the rest is
/// kept.
pub open spec fn drop_id(s: Seq<WindowView>, id: int) -> Seq<WindowView> {
    s.filter(|w: WindowView| w.id != id)
}

/// Effect of an accepted focus event: any old entry for the window leaves,
/// and the window takes the front.
pub open spec fn focus_effect(s: Seq<WindowView>, w: WindowView) -> Seq<WindowView> {
    seq![w] + drop_id(s, w.id)
}

/// Effect of an accepted close event: the entry with that id leaves, if it is
/// there at all.
pub open spec fn close_effect(s: Seq<WindowView>, id: int) -> Seq<WindowView> {
    drop_id(s, id)
}

/// Effect of one normalized event on the ordered contents.
pub open spec fn event_effect(s: Seq<WindowView>, event: WindowEvent) -> Seq<WindowView> {
    match event {
        WindowEvent::Focus(w) => focus_effect(s, w@),
        WindowEvent::Close(id) => close_effect(s, id as int),
    }
}

/// No entry of `drop_id(s, id)` carries `id`.
pub proof fn lemma_drop_id_drops(s: Seq<WindowView>, id: int)
    ensures
        forall|k: int| 0 <= k < drop_id(s, id).len() ==> drop_id(s, id)[k].id != id,
{
    broadcast use group_filter_ensures;

}

/// Filtering keeps a pairwise-distinct id sequence pairwise distinct, and
/// every entry it keeps is an entry of the original.
pub proof fn lemma_drop_id_keeps_unique(s: Seq<WindowView>, id: int)
    requires
        ids_unique(s),
    ensures
        ids_unique(drop_id(s, id)),
        forall|k: int|
            0 <= k < drop_id(s, id).len() ==> s.contains(#[trigger] drop_id(s, id)[k]),
    decreases s.len(),
{
    reveal(Seq::filter);
    if s.len() > 0 {
        assert(ids_unique(s.drop_last())) by {
            assert(forall|i: int| 0 <= i < s.drop_last().len() ==> s.drop_last()[i] == s[i]);
        }
        lemma_drop_id_keeps_unique(s.drop_last(), id);
        let rest = drop_id(s.drop_last(), id);
        assert forall|k: int| 0 <= k < rest.len() implies s.contains(#[trigger] rest[k]) by {
            let j = choose|j: int| 0 <= j < s.drop_last().len() && s.drop_last()[j] == rest[k];
            assert(s[j] == rest[k]);
        }
        if s.last().id != id {
            let out = rest.push(s.last());
            assert(drop_id(s, id) == out);
            assert(s.contains(s.last())) by {
                assert(s[s.len() - 1] == s.last());
            }
            assert forall|i: int, j: int| 0 <= i < j < out.len() implies out[i].id
                != out[j].id by {
                if j == rest.len() {
                    let m = choose|m: int|
                        0 <= m < s.drop_last().len() && s.drop_last()[m] == rest[i];
                    assert(s[m] == rest[i]);
                    assert(s[m].id != s[s.len() - 1].id);
                }
            }
        } else {
            assert(drop_id(s, id) == rest);
        }
    }
}

/// Filtering a sequence in which every entry already passes the test changes
/// nothing.
pub proof fn lemma_drop_id_absent(s: Seq<WindowView>, id: int)
    requires
        forall|k: int| 0 <= k < s.len() ==> s[k].id != id,
    ensures
        drop_id(s, id) == s,
    decreases s.len(),
{
    reveal(Seq::filter);
    if s.len() > 0 {
        assert(forall|k: int| 0 <= k < s.drop_last().len() ==> s.drop_last()[k].id != id);
        lemma_drop_id_absent(s.drop_last(), id);
        assert(drop_id(s, id) == s.drop_last().push(s.last()));
        assert(s.drop_last().push(s.last()) =~= s);
    } else {
        assert(drop_id(s, id) =~= s);
    }
}

/// Stepping the filter across one more element of a prefix.
proof fn lemma_drop_id_take_step(s: Seq<WindowView>, id: int, i: int)
    requires
        0 <= i < s.len(),
    ensures
        drop_id(s.take(i + 1), id) == drop_id(s.take(i), id) + (if s[i].id != id {
            seq![s[i]]
        } else {
            Seq::<WindowView>::empty()
        }),
{
    assert(s.take(i + 1) =~= s.take(i) + seq![s[i]]);
    Seq::filter_distributes_over_add(s.take(i), seq![s[i]], |w: WindowView| w.id != id);
    reveal_with_fuel(Seq::filter, 3);
    let single = seq![s[i]];
    assert(single.drop_last() =~= Seq::<WindowView>::empty());
    if s[i].id != id {
        assert(single.filter(|w: WindowView| w.id != id) =~= single);
    } else {
        assert(single.filter(|w: WindowView| w.id != id) =~= Seq::<WindowView>::empty());
    }
}

/// Filtering a one-entry sequence keeps or drops its entry.
proof fn lemma_drop_id_singleton(w: WindowView, id: int)
    ensures
        drop_id(seq![w], id) == (if w.id != id {
            seq![w]
        } else {
            Seq::<WindowView>::empty()
        }),
{
    reveal_with_fuel(Seq::filter, 3);
    assert(seq![w].drop_last() =~= Seq::<WindowView>::empty());
    if w.id != id {
        assert(drop_id(seq![w], id) =~= seq![w]);
    } else {
        assert(drop_id(seq![w], id) =~= Seq::<WindowView>::empty());
    }
}

/// Idempotent focus. One accepted focus event leaves exactly one entry for
/// the window, at the front; a second, with nothing in between, changes
/// nothing at all.
pub proof fn lemma_focus_idempotent(s: Seq<WindowView>, w: WindowView)
    ensures
        focus_effect(s, w)[0] == w,
        forall|k: int| 1 <= k < focus_effect(s, w).len() ==> focus_effect(s, w)[k].id != w.id,
        focus_effect(focus_effect(s, w), w) == focus_effect(s, w),
{
    lemma_drop_id_drops(s, w.id);
    let once = focus_effect(s, w);
    Seq::filter_distributes_over_add(seq![w], drop_id(s, w.id), |x: WindowView| x.id != w.id);
    lemma_drop_id_singleton(w, w.id);
    lemma_drop_id_absent(drop_id(s, w.id), w.id);
    assert(drop_id(once, w.id) =~= drop_id(s, w.id));
}

/// Removal. After a focus event for a window, a close event for its id
/// leaves no entry with that id — in particular, not the window itself.
pub proof fn lemma_close_removes(s: Seq<WindowView>, w: WindowView)
    ensures
        forall|k: int|
            0 <= k < close_effect(focus_effect(s, w), w.id).len() ==> close_effect(
                focus_effect(s, w),
                w.id,
            )[k].id != w.id,
{
    lemma_drop_id_drops(focus_effect(s, w), w.id);
}

/// A close for an id that no entry carries changes nothing.
pub proof fn lemma_close_unknown_noop(s: Seq<WindowView>, id: int)
    requires
        forall|k: int| 0 <= k < s.len() ==> s[k].id != id,
    ensures
        close_effect(s, id) == s,
{
    lemma_drop_id_absent(s, id);
}

/// Most-recently-used ordering. Focus events for two distinct windows, the
/// first focused again last, order the store most recent first: the first
/// window at the front, the second behind it.
pub proof fn lemma_mru_order(a: WindowView, b: WindowView)
    requires
        a.id != b.id,
    ensures
        focus_effect(focus_effect(focus_effect(Seq::empty(), a), b), a) == seq![a, b],
{
    let empty = Seq::<WindowView>::empty();
    assert(drop_id(empty, a.id) =~= empty) by {
        lemma_drop_id_absent(empty, a.id);
    }
    let s1 = focus_effect(empty, a);
    assert(s1 =~= seq![a]);
    lemma_drop_id_singleton(a, b.id);
    let s2 = focus_effect(s1, b);
    assert(s2 =~= seq![b, a]);
    assert(s2 =~= seq![b] + seq![a]);
    Seq::filter_distributes_over_add(seq![b], seq![a], |x: WindowView| x.id != a.id);
    lemma_drop_id_singleton(b, a.id);
    lemma_drop_id_singleton(a, a.id);
    assert(drop_id(s2, a.id) =~= seq![b]);
    assert(focus_effect(s2, a) =~= seq![a, b]);
}

/// A window that was closed and then announced again enters at the front,
/// above what stayed: the end of the end-to-end exchange.
pub proof fn lemma_refocus_after_close(a: WindowView, b: WindowView)
    requires
        a.id != b.id,
    ensures
        close_effect(seq![a, b], b.id) == seq![a],
        focus_effect(seq![a], b) == seq![b, a],
{
    assert(seq![a, b] =~= seq![a] + seq![b]);
    Seq::filter_distributes_over_add(seq![a], seq![b], |x: WindowView| x.id != b.id);
    lemma_drop_id_singleton(a, b.id);
    lemma_drop_id_singleton(b, b.id);
    assert(close_effect(seq![a, b], b.id) =~= seq![a]);
    assert(focus_effect(seq![a], b) =~= seq![b, a]);
}

/// The ordered, deduplicated window store: front is the most recently
/// relevant window. Only accepted focus events reorder it; a close only
/// removes.
pub struct WindowQueue {
    windows: Vec<Window>,
}

impl View for WindowQueue {
    type V = Seq<WindowView>;

    closed spec fn view(&self) -> Seq<WindowView> {
        self.windows.deep_view()
    }
}

impl WindowQueue {
    /// The store invariant: at most one entry per window id.
    pub open spec fn wf(self) -> bool {
        ids_unique(self@)
    }

    /// A store starts empty.
    pub fn new() -> (r: Self)
        ensures
            r@ == Seq::<WindowView>::empty(),
            r.wf(),
    {
        let r = WindowQueue { windows: Vec::new() };
        assert(r@ =~= Seq::<WindowView>::empty());
        r
    }

    /// Every entry with the given id, removed; order of the rest kept.
    fn remove_id(&mut self, id: SwayNodeId)
        ensures
            final(self)@ == drop_id(old(self)@, id as int),
    {
        let mut kept: Vec<Window> = Vec::new();
        let mut i: usize = 0;
        while i < self.windows.len()
            invariant
                i <= self.windows.len(),
                self.windows.deep_view() == old(self)@,
                kept.deep_view() == drop_id(old(self)@.take(i as int), id as int),
            decreases self.windows.len() - i,
        {
            proof {
                lemma_drop_id_take_step(old(self)@, id as int, i as int);
            }
            let w = &self.windows[i];
            if w.id != id {
                let ghost prev = kept.deep_view();
                kept.push(w.clone());
                assert(kept.deep_view() =~= prev + seq![old(self)@[i as int]]);
            } else {
                assert(kept.deep_view() =~= kept.deep_view()
                    + Seq::<WindowView>::empty());
            }
            i = i + 1;
        }
        assert(old(self)@.take(self.windows.len() as int) =~= old(self)@);
        self.windows = kept;
    }

    /// Applies one normalized event.
    ///
    /// A focus event removes any existing entry for the window, wherever it
    /// sits, and inserts the window at the front; a close event removes the
    /// entry with that id, and an id that was never pushed changes nothing.
    pub fn push_event(&mut self, event: WindowEvent)
        requires
            old(self).wf(),
        ensures
            final(self)@ == event_effect(old(self)@, event),
            final(self).wf(),
    {
        match event {
            WindowEvent::Focus(w) => {
                let ghost wv = w@;
                self.remove_id(w.id);
                let ghost rest = self@;
                self.windows.insert(0, w);
                assert(self@ =~= seq![wv] + rest);
                proof {
                    lemma_drop_id_drops(old(self)@, wv.id);
                    lemma_drop_id_keeps_unique(old(self)@, wv.id);
                    assert forall|i: int, j: int| 0 <= i < j < self@.len() implies self@[i].id
                        != self@[j].id by {
                        if i == 0 {
                            assert(self@[j] == rest[j - 1]);
                        } else {
                            assert(self@[i] == rest[i - 1] && self@[j] == rest[j - 1]);
                        }
                    }
                }
            },
            WindowEvent::Close(id) => {
                self.remove_id(id);
                proof {
                    lemma_drop_id_keeps_unique(old(self)@, id as int);
                }
            },
        }
    }

    /// A full ordered copy of the current entries; internal storage is never
    /// exposed.
    pub fn sorted_windows(&self) -> (r: Vec<Window>)
        ensures
            r.deep_view() == self@,
    {
        let mut out: Vec<Window> = Vec::new();
        let mut i: usize = 0;
        while i < self.windows.len()
            invariant
                i <= self.windows.len(),
                out.deep_view() == self@.take(i as int),
            decreases self.windows.len() - i,
        {
            let ghost prev = out.deep_view();
            out.push(self.windows[i].clone());
            assert(out.deep_view() =~= prev.push(self@[i as int]));
            assert(self@.take(i + 1 as int) =~= self@.take(i as int).push(self@[i as int]));
            i = i + 1;
        }
        assert(self@.take(self.windows.len() as int) =~= self@);
        out
    }
}

} // verus!

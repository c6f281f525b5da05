//! The blog as a mathematical state machine.

use crate::entry::EntryView;
use crate::msg::MsgView;
use chrono::NaiveDateTime;
use vstd::prelude::*;

verus! {

/// The whole state of the blog.
#[verifier::ext_equal]
pub struct StateView {
    /// The draft being composed.
    pub inflight: EntryView,
    /// The committed entries, oldest first.
    pub entries: Seq<EntryView>,
    /// Whether the compose panel is open.
    pub adding: bool,
    /// How many entries make a page.
    pub page_size: nat,
}

/// How many entries make a page.
pub const PAGE_SIZE: usize = 10;

/// The state a session starts in: the given entries, an empty draft started
/// at `now`, the compose panel closed.
pub open spec fn initial(entries: Seq<EntryView>, now: NaiveDateTime) -> StateView {
    StateView { inflight: EntryView::blank(now), entries, adding: false, page_size: PAGE_SIZE as nat }
}

/// The entries a session starts with, given what storage held: nothing when
/// the stored value was missing or could not be read.
pub open spec fn restored_entries(stored: Option<Seq<EntryView>>) -> Seq<EntryView> {
    match stored {
        Some(entries) => entries,
        None => Seq::empty(),
    }
}

/// The largest id among `entries`, or `0` when there are none.
pub open spec fn max_id(entries: Seq<EntryView>) -> nat
    decreases entries.len(),
{
    if entries.len() == 0 {
        0
    } else {
        let before = max_id(entries.drop_last());
        if entries.last().id > before {
            entries.last().id
        } else {
            before
        }
    }
}

/// The id that the next committed entry receives.
pub open spec fn next_id(entries: Seq<EntryView>) -> nat {
    max_id(entries) + 1
}

/// The state that follows `s` when `msg` arrives at the instant `now`.
pub open spec fn step(s: StateView, msg: MsgView, now: NaiveDateTime) -> StateView {
    match msg {
        MsgView::Add => StateView {
            inflight: EntryView::blank(now),
            entries: s.entries.push(s.inflight.with_id(next_id(s.entries))),
            ..s
        },
        MsgView::ShowAdd => StateView { adding: true, ..s },
        MsgView::HideAdd => StateView { adding: false, inflight: EntryView::blank(now), ..s },
        MsgView::UpdateTitle(title) => StateView {
            inflight: EntryView { title, ..s.inflight },
            ..s
        },
        MsgView::UpdateBody(body) => StateView { inflight: EntryView { body, ..s.inflight }, ..s },
    }
}

/// An event together with the instant at which it arrives.
pub struct Arrival {
    pub msg: MsgView,
    pub at: NaiveDateTime,
}

/// The state reached from `s` after `arrivals`, taken in order.
pub open spec fn run(s: StateView, arrivals: Seq<Arrival>) -> StateView
    decreases arrivals.len(),
{
    if arrivals.len() == 0 {
        s
    } else {
        step(run(s, arrivals.drop_last()), arrivals.last().msg, arrivals.last().at)
    }
}

/// Whether `entries` can be the committed entries of a blog: every id is
/// positive and no id occurs twice.
pub open spec fn ids_valid(entries: Seq<EntryView>) -> bool {
    &&& forall|i: int| 0 <= i < entries.len() ==> (#[trigger] entries[i]).id > 0
    &&& forall|i: int, j: int|
        0 <= i < j < entries.len() ==> (#[trigger] entries[i]).id != (#[trigger] entries[j]).id
}

/// The invariant of the blog: the draft has no id yet, and the committed
/// entries have valid ids.
pub open spec fn well_formed(s: StateView) -> bool {
    &&& s.inflight.id == 0
    &&& ids_valid(s.entries)
}

/// The event that the compose button sends: it closes an open panel and opens
/// a closed one.
pub open spec fn toggle(s: StateView) -> MsgView {
    if s.adding {
        MsgView::HideAdd
    } else {
        MsgView::ShowAdd
    }
}

/// The entries in the order they are shown: the newest first.
pub open spec fn display_order(s: StateView) -> Seq<EntryView> {
    Seq::new(s.entries.len(), |i: int| s.entries[s.entries.len() - 1 - i])
}

/// Page number `page` of the entries, counting from zero, or `None` when the
/// entries end before that page begins. The last page may be short.
pub open spec fn page_of(s: StateView, page: nat) -> Option<Seq<EntryView>> {
    let len = s.entries.len() as int;
    let size = s.page_size as int;
    let start = page * size;
    let end = if start + size < len {
        start + size
    } else {
        len
    };
    if start < len {
        Some(s.entries.subrange(start, end))
    } else {
        None
    }
}

/// `max_id` is an upper bound of the ids, and one of them unless there are none.
pub proof fn lemma_max_id(entries: Seq<EntryView>)
    ensures
        forall|i: int| 0 <= i < entries.len() ==> (#[trigger] entries[i]).id <= max_id(entries),
        entries.len() > 0 ==> exists|i: int|
            0 <= i < entries.len() && (#[trigger] entries[i]).id == max_id(entries),
    decreases entries.len(),
{
    if entries.len() > 0 {
        let front = entries.drop_last();
        lemma_max_id(front);
        assert forall|i: int| 0 <= i < entries.len() implies (#[trigger] entries[i]).id <= max_id(
            entries,
        ) by {
            if i < front.len() {
                assert(entries[i] == front[i]);
            }
        }
        if entries.last().id > max_id(front) || front.len() == 0 {
            assert(entries[entries.len() - 1].id == max_id(entries));
        } else {
            let i = choose|i: int| 0 <= i < front.len() && (#[trigger] front[i]).id == max_id(front);
            assert(entries[i] == front[i]);
        }
    }
}

} // verus!

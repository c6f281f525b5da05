//! What holds of the state machine in every state and after every event.

use crate::entry::EntryView;
use crate::model::{
    display_order, ids_valid, initial, lemma_max_id, max_id, next_id, restored_entries, run, step,
    toggle, well_formed, Arrival, StateView, PAGE_SIZE,
};
use crate::msg::MsgView;
use chrono::NaiveDateTime;
use vstd::prelude::*;

verus! {

/// The next id is `1` for an empty blog and otherwise one more than some id
/// in use; in both cases it is larger than every id in use.
pub proof fn law_next_id_is_one_past_the_largest(entries: Seq<EntryView>)
    ensures
        entries.len() == 0 ==> next_id(entries) == 1,
        entries.len() > 0 ==> exists|i: int|
            0 <= i < entries.len() && next_id(entries) == (#[trigger] entries[i]).id + 1,
        forall|i: int| 0 <= i < entries.len() ==> (#[trigger] entries[i]).id < next_id(entries),
{
    lemma_max_id(entries);
}

/// `Add` appends exactly one entry: the draft as it stood, under the next id.
/// The entries committed before stay as they were.
pub proof fn law_add_commits_the_draft(s: StateView, now: NaiveDateTime)
    ensures
        ({
            let t = step(s, MsgView::Add, now);
            &&& t.entries.len() == s.entries.len() + 1
            &&& t.entries.drop_last() == s.entries
            &&& t.entries.last().id == next_id(s.entries)
            &&& t.entries.last().title == s.inflight.title
            &&& t.entries.last().body == s.inflight.body
            &&& t.entries.last().time == s.inflight.time
        }),
{
}

/// After `Add` and after `HideAdd` the draft is empty and has no id.
pub proof fn law_draft_reset(s: StateView, msg: MsgView, now: NaiveDateTime)
    requires
        msg is Add || msg is HideAdd,
    ensures
        step(s, msg, now).inflight.title == Seq::<char>::empty(),
        step(s, msg, now).inflight.body == Seq::<char>::empty(),
        step(s, msg, now).inflight.id == 0,
        step(s, msg, now).inflight.time == now,
{
}

/// `ShowAdd` opens the compose panel and leaves the draft alone; `HideAdd`
/// closes it and empties the draft. Neither touches the entries.
pub proof fn law_visibility(s: StateView, now: NaiveDateTime)
    ensures
        step(s, MsgView::ShowAdd, now).adding,
        step(s, MsgView::ShowAdd, now).inflight == s.inflight,
        step(s, MsgView::ShowAdd, now).entries == s.entries,
        !step(s, MsgView::HideAdd, now).adding,
        step(s, MsgView::HideAdd, now).inflight == EntryView::blank(now),
        step(s, MsgView::HideAdd, now).entries == s.entries,
{
}

/// The compose button's event flips the panel.
pub proof fn law_toggle_flips(s: StateView, now: NaiveDateTime)
    ensures
        step(s, toggle(s), now).adding == !s.adding,
{
}

/// What an event leaves alone: the page size always; the entries unless it
/// is `Add`; the panel unless it is `ShowAdd` or `HideAdd`; the draft unless
/// it is one of the other three, and then an edit changes one text only.
pub proof fn law_step_frame(s: StateView, msg: MsgView, now: NaiveDateTime)
    ensures
        step(s, msg, now).page_size == s.page_size,
        !(msg is Add) ==> step(s, msg, now).entries == s.entries,
        !(msg is ShowAdd || msg is HideAdd) ==> step(s, msg, now).adding == s.adding,
        msg is ShowAdd ==> step(s, msg, now).inflight == s.inflight,
        msg is UpdateTitle ==> step(s, msg, now).inflight == (EntryView {
            title: msg->UpdateTitle_0,
            ..s.inflight
        }),
        msg is UpdateBody ==> step(s, msg, now).inflight == (EntryView {
            body: msg->UpdateBody_0,
            ..s.inflight
        }),
{
}

/// Every event keeps the invariant.
pub proof fn law_step_keeps_well_formed(s: StateView, msg: MsgView, now: NaiveDateTime)
    requires
        well_formed(s),
    ensures
        well_formed(step(s, msg, now)),
{
    if msg is Add {
        lemma_max_id(s.entries);
    }
}

/// A session that starts from valid entries starts well formed; one that
/// starts from nothing always does.
pub proof fn law_initial_well_formed(entries: Seq<EntryView>, now: NaiveDateTime)
    ensures
        ids_valid(entries) ==> well_formed(initial(entries, now)),
        well_formed(initial(Seq::empty(), now)),
{
}

/// Whatever events arrive, the invariant holds afterwards.
pub proof fn law_run_keeps_well_formed(s: StateView, arrivals: Seq<Arrival>)
    requires
        well_formed(s),
    ensures
        well_formed(run(s, arrivals)),
    decreases arrivals.len(),
{
    if arrivals.len() > 0 {
        law_run_keeps_well_formed(s, arrivals.drop_last());
        law_step_keeps_well_formed(
            run(s, arrivals.drop_last()),
            arrivals.last().msg,
            arrivals.last().at,
        );
    }
}

/// Whatever events arrive, the page size stays, the entries committed before
/// are still there, unchanged and in place, and every entry committed since
/// has the id that was next when it was committed.
pub proof fn law_run_assigns_next_ids(s: StateView, arrivals: Seq<Arrival>)
    ensures
        ({
            let after = run(s, arrivals);
            &&& after.page_size == s.page_size
            &&& after.entries.len() >= s.entries.len()
            &&& after.entries.take(s.entries.len() as int) == s.entries
            &&& forall|k: int|
                s.entries.len() <= k < after.entries.len() ==> (#[trigger] after.entries[k]).id
                    == next_id(after.entries.take(k))
        }),
    decreases arrivals.len(),
{
    if arrivals.len() > 0 {
        let before = run(s, arrivals.drop_last());
        let after = run(s, arrivals);
        law_run_assigns_next_ids(s, arrivals.drop_last());
        if arrivals.last().msg is Add {
            assert(after.entries.take(s.entries.len() as int) =~= before.entries.take(
                s.entries.len() as int,
            ));
            assert forall|k: int| s.entries.len() <= k < after.entries.len() implies (
            #[trigger] after.entries[k]).id == next_id(after.entries.take(k)) by {
                if k < before.entries.len() {
                    assert(after.entries.take(k) =~= before.entries.take(k));
                    assert(after.entries[k] == before.entries[k]);
                } else {
                    assert(after.entries.take(k) =~= before.entries);
                }
            }
        }
    }
}

/// When the ids of `entries` count up from one, the largest is their number.
proof fn lemma_counted_max(entries: Seq<EntryView>)
    requires
        forall|i: int| 0 <= i < entries.len() ==> (#[trigger] entries[i]).id == i + 1,
    ensures
        max_id(entries) == entries.len(),
    decreases entries.len(),
{
    if entries.len() > 0 {
        let front = entries.drop_last();
        assert forall|i: int| 0 <= i < front.len() implies (#[trigger] front[i]).id == i + 1 by {
            assert(front[i] == entries[i]);
        }
        lemma_counted_max(front);
    }
}

/// In a session that starts with no entries, the ids count up from one in
/// the order of committing, whatever events arrive.
pub proof fn law_ids_count_up(now: NaiveDateTime, arrivals: Seq<Arrival>)
    ensures
        ({
            let after = run(initial(Seq::empty(), now), arrivals);
            forall|i: int| 0 <= i < after.entries.len() ==> (#[trigger] after.entries[i]).id == i + 1
        }),
    decreases arrivals.len(),
{
    if arrivals.len() > 0 {
        law_ids_count_up(now, arrivals.drop_last());
        lemma_counted_max(run(initial(Seq::empty(), now), arrivals.drop_last()).entries);
    }
}

/// A session started from the entries of an earlier one has exactly those
/// entries; the draft, the panel and the page size start afresh.
pub proof fn law_reload_restores_entries(earlier: StateView, now: NaiveDateTime)
    ensures
        initial(restored_entries(Some(earlier.entries)), now).entries == earlier.entries,
        initial(restored_entries(Some(earlier.entries)), now).inflight == EntryView::blank(now),
        !initial(restored_entries(Some(earlier.entries)), now).adding,
        initial(restored_entries(Some(earlier.entries)), now).page_size == PAGE_SIZE,
        well_formed(earlier) ==> well_formed(initial(restored_entries(Some(earlier.entries)), now)),
{
}

/// A session started from storage that held nothing readable has no entries.
pub proof fn law_unreadable_storage_is_empty(now: NaiveDateTime)
    ensures
        initial(restored_entries(None), now).entries == Seq::<EntryView>::empty(),
        well_formed(initial(restored_entries(None), now)),
{
}

/// The entries are shown in the reverse of the order of committing.
pub proof fn law_display_order_reverses(s: StateView)
    ensures
        display_order(s) == s.entries.reverse(),
{
}

/// An entry just committed is the first one shown.
pub proof fn law_new_entry_shown_first(s: StateView, now: NaiveDateTime)
    ensures
        display_order(step(s, MsgView::Add, now))[0] == s.inflight.with_id(next_id(s.entries)),
{
}

} // verus!

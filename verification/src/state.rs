//! The executable blog state and the one operation that changes it.

use crate::clock::now;
use crate::entry::{views, BlogEntry, EntryView};
use crate::model::{
    display_order, ids_valid, initial, lemma_max_id, max_id, next_id, page_of, restored_entries,
    step, toggle, well_formed, StateView, PAGE_SIZE,
};
use crate::msg::{BlogMsg, MsgView};
use chrono::NaiveDateTime;
use vstd::prelude::*;
use vstd::slice::slice_subrange;

verus! {

/// The blog: the committed entries, the draft, and the compose panel's flag.
///
/// Only [`BlogState::update`] and [`BlogState::update_at`] change a value of
/// this type.
pub struct BlogState {
    inflight: BlogEntry,
    entries: Vec<BlogEntry>,
    adding: bool,
    page_size: usize,
}

impl View for BlogState {
    type V = StateView;

    closed spec fn view(&self) -> StateView {
        StateView {
            inflight: self.inflight@,
            entries: views(self.entries@),
            adding: self.adding,
            page_size: self.page_size as nat,
        }
    }
}

/// The views of a list of borrowed entries, in the same order.
pub open spec fn ref_views(entries: Seq<&BlogEntry>) -> Seq<EntryView> {
    entries.map_values(|e: &BlogEntry| e@)
}

/// What storage held, seen as a list of entry views.
pub open spec fn stored_views(stored: Option<Vec<BlogEntry>>) -> Option<Seq<EntryView>> {
    match stored {
        Some(entries) => Some(views(entries@)),
        None => None,
    }
}

impl BlogState {
    /// Starts a session from what storage held, reading the clock for the
    /// draft's timestamp. `None` stands for a missing or unreadable value.
    pub fn create(stored: Option<Vec<BlogEntry>>) -> (state: BlogState)
        ensures
            state@ == initial(restored_entries(stored_views(stored)), state@.inflight.time),
            stored is None ==> state@.entries.len() == 0,
            ids_valid(restored_entries(stored_views(stored))) ==> well_formed(state@),
    {
        Self::create_at(stored, now())
    }

    /// Starts a session at the instant `now` from what storage held.
    pub fn create_at(stored: Option<Vec<BlogEntry>>, now: NaiveDateTime) -> (state: BlogState)
        ensures
            state@ == initial(restored_entries(stored_views(stored)), now),
            stored is None ==> state@.entries.len() == 0,
            ids_valid(restored_entries(stored_views(stored))) ==> well_formed(state@),
    {
        let entries = match stored {
            Some(entries) => entries,
            None => Vec::new(),
        };
        BlogState { inflight: BlogEntry::blank(now), entries, adding: false, page_size: PAGE_SIZE }
    }

    /// The draft being composed.
    pub fn inflight(&self) -> (draft: &BlogEntry)
        ensures
            draft@ == self@.inflight,
    {
        &self.inflight
    }

    /// The committed entries, oldest first.
    pub fn entries(&self) -> (entries: &Vec<BlogEntry>)
        ensures
            views(entries@) == self@.entries,
    {
        &self.entries
    }

    /// Whether the compose panel is open.
    pub fn adding(&self) -> (adding: bool)
        ensures
            adding == self@.adding,
    {
        self.adding
    }

    /// How many entries make a page.
    pub fn page_size(&self) -> (size: usize)
        ensures
            size == self@.page_size,
    {
        self.page_size
    }

    /// The largest id in use, `0` when there are no entries.
    fn max_id(&self) -> (max: usize)
        ensures
            max == max_id(self@.entries),
    {
        let ghost all = views(self.entries@);
        let mut max: usize = 0;
        let mut i: usize = 0;
        while i < self.entries.len()
            invariant
                i <= self.entries.len(),
                all == views(self.entries@),
                max == max_id(all.take(i as int)),
            decreases self.entries.len() - i,
        {
            let id: usize = self.entries[i].id;
            proof {
                assert(all.take(i + 1).drop_last() =~= all.take(i as int));
            }
            if id > max {
                max = id;
            }
            i += 1;
        }
        proof {
            assert(all.take(i as int) =~= all);
        }
        max
    }

    /// Whether an id is left for one more entry.
    pub fn can_add(&self) -> (ok: bool)
        ensures
            ok == (next_id(self@.entries) <= usize::MAX),
    {
        self.max_id() < usize::MAX
    }

    /// The id that the next committed entry receives: one more than the
    /// largest in use, `1` when there are no entries.
    pub fn next_id(&self) -> (id: usize)
        requires
            next_id(self@.entries) <= usize::MAX,
        ensures
            id == next_id(self@.entries),
    {
        self.max_id() + 1
    }

    /// Commits the draft under the next id and starts a new draft at `now`.
    fn add(&mut self, now: NaiveDateTime)
        requires
            next_id(old(self)@.entries) <= usize::MAX,
        ensures
            final(self)@ == step(old(self)@, MsgView::Add, now),
    {
        let mut entry = self.inflight.clone();
        entry.id = self.next_id();
        self.inflight = BlogEntry::blank(now);
        self.entries.push(entry);
    }

    /// Opens the compose panel.
    fn show_add(&mut self)
        ensures
            final(self)@ == (StateView { adding: true, ..old(self)@ }),
    {
        self.adding = true;
    }

    /// Closes the compose panel and starts a new draft at `now`.
    fn hide_add(&mut self, now: NaiveDateTime)
        ensures
            final(self)@ == step(old(self)@, MsgView::HideAdd, now),
    {
        self.adding = false;
        self.inflight = BlogEntry::blank(now);
    }

    /// Replaces the draft's title.
    fn update_title(&mut self, title: String)
        ensures
            final(self)@ == (StateView {
                inflight: EntryView { title: title@, ..old(self)@.inflight },
                ..old(self)@
            }),
    {
        self.inflight.title = title;
    }

    /// Replaces the draft's body.
    fn update_body(&mut self, body: String)
        ensures
            final(self)@ == (StateView {
                inflight: EntryView { body: body@, ..old(self)@.inflight },
                ..old(self)@
            }),
    {
        self.inflight.body = body;
    }

    /// Page number `page` of the entries, counting from zero, or `None` when
    /// the entries end before that page begins.
    ///
    /// No event asks for a page; the blog shows all its entries at once.
    pub fn get_page(&self, page: usize) -> (found: Option<&[BlogEntry]>)
        ensures
            match found {
                Some(entries) => page_of(self@, page as nat) == Some(views(entries@)),
                None => page_of(self@, page as nat) is None,
            },
    {
        let len: usize = self.entries.len();
        let start: usize = match page.checked_mul(self.page_size) {
            Some(start) => start,
            None => { return None; },
        };
        if start < len {
            let end: usize = if self.page_size < len - start {
                start + self.page_size
            } else {
                len
            };
            Some(slice_subrange(self.entries.as_slice(), start, end))
        } else {
            None
        }
    }

    /// The entries in the order they are shown: the newest first.
    pub fn newest_first(&self) -> (shown: Vec<&BlogEntry>)
        ensures
            ref_views(shown@) == display_order(self@),
            shown@.len() == self@.entries.len(),
            forall|i: int|
                0 <= i < shown@.len() ==> (#[trigger] shown@[i])@ == display_order(self@)[i],
    {
        let len: usize = self.entries.len();
        let mut shown: Vec<&BlogEntry> = Vec::new();
        let mut left: usize = len;
        while left > 0
            invariant
                left <= len,
                len == self.entries.len(),
                shown.len() == len - left,
                forall|i: int| 0 <= i < shown.len() ==> shown[i] == self.entries[len - 1 - i],
            decreases left,
        {
            left -= 1;
            shown.push(&self.entries[left]);
        }
        shown
    }

    /// The event that the compose button sends in this state.
    pub fn toggle_msg(&self) -> (msg: BlogMsg)
        ensures
            msg@ == toggle(self@),
    {
        if self.adding {
            BlogMsg::HideAdd
        } else {
            BlogMsg::ShowAdd
        }
    }

    /// Applies `msg`, reading the clock where the event starts a new draft.
    /// Returns whether the blog must be drawn again, which is always.
    pub fn update(&mut self, msg: BlogMsg) -> (render: bool)
        requires
            msg is Add ==> next_id(old(self)@.entries) <= usize::MAX,
        ensures
            render,
            final(self)@ == step(old(self)@, msg@, final(self)@.inflight.time),
            msg is Add ==> final(self)@.entries == old(self)@.entries.push(
                old(self)@.inflight.with_id(next_id(old(self)@.entries)),
            ),
            msg is Add || msg is HideAdd ==> final(self)@.inflight.is_blank(),
            msg is ShowAdd ==> final(self)@.adding && final(self)@.inflight == old(self)@.inflight,
            msg is HideAdd ==> !final(self)@.adding,
            well_formed(old(self)@) ==> well_formed(final(self)@),
    {
        proof {
            lemma_max_id(old(self)@.entries);
        }
        match msg {
            BlogMsg::Add => self.add(now()),
            BlogMsg::ShowAdd => self.show_add(),
            BlogMsg::HideAdd => self.hide_add(now()),
            BlogMsg::UpdateTitle(title) => self.update_title(title),
            BlogMsg::UpdateBody(body) => self.update_body(body),
        }
        true
    }

    /// Applies `msg` as arriving at the instant `now`.
    /// Returns whether the blog must be drawn again, which is always.
    pub fn update_at(&mut self, msg: BlogMsg, now: NaiveDateTime) -> (render: bool)
        requires
            msg is Add ==> next_id(old(self)@.entries) <= usize::MAX,
        ensures
            render,
            final(self)@ == step(old(self)@, msg@, now),
            msg is Add ==> final(self)@.entries == old(self)@.entries.push(
                old(self)@.inflight.with_id(next_id(old(self)@.entries)),
            ),
            msg is Add || msg is HideAdd ==> final(self)@.inflight == EntryView::blank(now),
            msg is ShowAdd ==> final(self)@.adding && final(self)@.inflight == old(self)@.inflight,
            msg is HideAdd ==> !final(self)@.adding,
            well_formed(old(self)@) ==> well_formed(final(self)@),
    {
        proof {
            lemma_max_id(old(self)@.entries);
        }
        match msg {
            BlogMsg::Add => self.add(now),
            BlogMsg::ShowAdd => self.show_add(),
            BlogMsg::HideAdd => self.hide_add(now),
            BlogMsg::UpdateTitle(title) => self.update_title(title),
            BlogMsg::UpdateBody(body) => self.update_body(body),
        }
        true
    }
}

} // verus!

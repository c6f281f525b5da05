//! A single blog entry, committed or still a draft.

use crate::clock::now;
use chrono::NaiveDateTime;
use vstd::prelude::*;

verus! {

/// What an entry is, mathematically: two texts, the instant the entry was
/// started, and an id. A draft has id `0`; committed entries have positive ids.
#[verifier::ext_equal]
pub struct EntryView {
    pub title: Seq<char>,
    pub body: Seq<char>,
    pub time: NaiveDateTime,
    pub id: nat,
}

impl EntryView {
    /// The empty draft started at `time`.
    pub open spec fn blank(time: NaiveDateTime) -> EntryView {
        EntryView { title: Seq::empty(), body: Seq::empty(), time, id: 0 }
    }

    /// Whether this is an empty draft, whenever it was started.
    pub open spec fn is_blank(self) -> bool {
        self == Self::blank(self.time)
    }

    /// This entry as committed under `id`.
    pub open spec fn with_id(self, id: nat) -> EntryView {
        EntryView { id, ..self }
    }
}

/// One entry of the blog. `time` is a UTC instant.
#[derive(Debug, PartialEq, Eq)]
pub struct BlogEntry {
    pub title: String,
    pub body: String,
    pub time: NaiveDateTime,
    pub id: usize,
}

impl View for BlogEntry {
    type V = EntryView;

    open spec fn view(&self) -> EntryView {
        EntryView { title: self.title@, body: self.body@, time: self.time, id: self.id as nat }
    }
}

impl Clone for BlogEntry {
    fn clone(&self) -> (copy: Self)
        ensures
            copy == *self,
    {
        BlogEntry {
            title: self.title.clone(),
            body: self.body.clone(),
            time: self.time,
            id: self.id,
        }
    }
}

impl BlogEntry {
    /// An empty draft stamped with the current time.
    pub fn new() -> (entry: BlogEntry)
        ensures
            entry@.is_blank(),
    {
        Self::blank(now())
    }

    /// An empty draft stamped with `time`.
    pub fn blank(time: NaiveDateTime) -> (entry: BlogEntry)
        ensures
            entry@ == EntryView::blank(time),
    {
        BlogEntry { title: String::new(), body: String::new(), time, id: 0 }
    }
}

/// The views of a list of entries, in the same order.
pub open spec fn views(entries: Seq<BlogEntry>) -> Seq<EntryView> {
    entries.map_values(|e: BlogEntry| e@)
}

} // verus!

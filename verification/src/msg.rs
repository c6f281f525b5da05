//! The events that drive the blog.

use vstd::prelude::*;

verus! {

/// An event, with its texts as sequences of characters.
#[verifier::ext_equal]
pub enum MsgView {
    Add,
    ShowAdd,
    HideAdd,
    UpdateTitle(Seq<char>),
    UpdateBody(Seq<char>),
}

/// An event sent to the blog by whatever renders it.
#[derive(Debug, PartialEq, Eq)]
pub enum BlogMsg {
    /// Commit the draft as a new entry.
    Add,
    /// Open the compose panel.
    ShowAdd,
    /// Close the compose panel and throw the draft away.
    HideAdd,
    /// Replace the draft's title.
    UpdateTitle(String),
    /// Replace the draft's body.
    UpdateBody(String),
}

impl View for BlogMsg {
    type V = MsgView;

    open spec fn view(&self) -> MsgView {
        match self {
            BlogMsg::Add => MsgView::Add,
            BlogMsg::ShowAdd => MsgView::ShowAdd,
            BlogMsg::HideAdd => MsgView::HideAdd,
            BlogMsg::UpdateTitle(title) => MsgView::UpdateTitle(title@),
            BlogMsg::UpdateBody(body) => MsgView::UpdateBody(body@),
        }
    }
}

impl Clone for BlogMsg {
    fn clone(&self) -> (copy: Self)
        ensures
            copy == *self,
    {
        match self {
            BlogMsg::Add => BlogMsg::Add,
            BlogMsg::ShowAdd => BlogMsg::ShowAdd,
            BlogMsg::HideAdd => BlogMsg::HideAdd,
            BlogMsg::UpdateTitle(title) => BlogMsg::UpdateTitle(title.clone()),
            BlogMsg::UpdateBody(body) => BlogMsg::UpdateBody(body.clone()),
        }
    }
}

} // verus!

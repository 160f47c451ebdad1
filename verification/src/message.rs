//! The messages that the identified form reacts to.

use vstd::prelude::*;

verus! {

/// What a [`Msg`] stands for.
pub enum MsgView {
    AddAnswer(Seq<char>),
    DeleteAnswerById(nat),
    UpdateInput(Seq<char>),
}

/// A request to change the state of an [`App`](crate::App).
#[derive(Debug)]
pub enum Msg {
    /// Append the text as a new answer and empty the text field.
    AddAnswer(String),
    /// Take the answer with this identifier out of the list.
    DeleteAnswerById(usize),
    /// Replace the content of the text field.
    UpdateInput(String),
}

impl PartialEq for Msg {
    fn eq(&self, other: &Msg) -> (equal: bool) {
        match (self, other) {
            (Msg::AddAnswer(a), Msg::AddAnswer(b)) => *a == *b,
            (Msg::DeleteAnswerById(a), Msg::DeleteAnswerById(b)) => *a == *b,
            (Msg::UpdateInput(a), Msg::UpdateInput(b)) => *a == *b,
            _ => false,
        }
    }
}

impl vstd::std_specs::cmp::PartialEqSpecImpl for Msg {
    open spec fn obeys_eq_spec() -> bool {
        true
    }

    /// Two messages are equal where they are of one kind and carry the same
    /// text or identifier.
    open spec fn eq_spec(&self, other: &Msg) -> bool {
        self@ == other@
    }
}

impl Eq for Msg {}

impl Clone for Msg {
    fn clone(&self) -> (copy: Msg)
        ensures
            copy == *self,
    {
        match self {
            Msg::AddAnswer(text) => Msg::AddAnswer(text.clone()),
            Msg::DeleteAnswerById(id) => Msg::DeleteAnswerById(*id),
            Msg::UpdateInput(text) => Msg::UpdateInput(text.clone()),
        }
    }
}

impl View for Msg {
    type V = MsgView;

    open spec fn view(&self) -> MsgView {
        match *self {
            Msg::AddAnswer(text) => MsgView::AddAnswer(text@),
            Msg::DeleteAnswerById(id) => MsgView::DeleteAnswerById(id as nat),
            Msg::UpdateInput(text) => MsgView::UpdateInput(text@),
        }
    }
}

} // verus!

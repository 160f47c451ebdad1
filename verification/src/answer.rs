//! A single answer of the identified list.

use vstd::prelude::*;

verus! {

/// What an [`Answer`] stands for: an identifier and the characters of a text.
pub struct AnswerView {
    pub id: nat,
    pub text: Seq<char>,
}

/// One submitted text together with the identifier it was given.
///
/// Neither part changes after the answer has been made: an answer leaves the
/// list as a whole or not at all.
#[derive(Debug)]
pub struct Answer {
    id: usize,
    text: String,
}

impl View for Answer {
    type V = AnswerView;

    closed spec fn view(&self) -> AnswerView {
        AnswerView { id: self.id as nat, text: self.text@ }
    }
}

impl PartialEq for Answer {
    fn eq(&self, other: &Answer) -> (equal: bool) {
        self.id == other.id && self.text == other.text
    }
}

impl vstd::std_specs::cmp::PartialEqSpecImpl for Answer {
    open spec fn obeys_eq_spec() -> bool {
        true
    }

    /// Two answers are equal where they carry the same identifier and the
    /// same text.
    open spec fn eq_spec(&self, other: &Answer) -> bool {
        self@ == other@
    }
}

impl Eq for Answer {}

impl Clone for Answer {
    fn clone(&self) -> (copy: Answer)
        ensures
            copy == *self,
    {
        Answer { id: self.id, text: self.text.clone() }
    }
}

/// The answers of `list`, each as what it stands for, in the same order.
pub open spec fn answer_views(list: Seq<Answer>) -> Seq<AnswerView> {
    list.map_values(|a: Answer| a@)
}

impl Answer {
    /// The answer that carries `text` under the identifier `id`.
    pub fn new(id: usize, text: String) -> (answer: Answer)
        ensures
            answer@ == (AnswerView { id: id as nat, text: text@ }),
    {
        Answer { id, text }
    }

    /// The identifier of this answer.
    pub fn id(&self) -> (id: usize)
        ensures
            id == self@.id,
    {
        self.id
    }

    /// The text of this answer.
    pub fn text(&self) -> (text: &String)
        ensures
            text@ == self@.text,
    {
        &self.text
    }
}

} // verus!

//! The plain form: bare texts that are only ever added.

use vstd::prelude::*;
use crate::keys::{enter_key, is_enter};

verus! {

/// What a [`PlainForm`] stands for: the answers from first to last, and the
/// content of the text field.
pub struct PlainFormView {
    pub answers: Seq<Seq<char>>,
    pub input_value: Seq<char>,
}

impl PlainFormView {
    /// The state of a new form: no answers and an empty text field.
    pub open spec fn init() -> PlainFormView {
        PlainFormView { answers: Seq::empty(), input_value: Seq::empty() }
    }

    /// The state after `text` was added: `text` at the end of the list, and an
    /// empty text field.
    pub open spec fn add_answer(self, text: Seq<char>) -> PlainFormView {
        PlainFormView { answers: self.answers.push(text), input_value: Seq::empty() }
    }

    /// The state after the text field was set to `text`.
    pub open spec fn update_input(self, text: Seq<char>) -> PlainFormView {
        PlainFormView { input_value: text, ..self }
    }

    /// The state after the button was pressed: the content of the text field
    /// was added.
    pub open spec fn submit(self) -> PlainFormView {
        self.add_answer(self.input_value)
    }

    /// The state after `key` went down in the text field: Enter does what the
    /// button does, and no other key changes anything.
    pub open spec fn key_down(self, key: Seq<char>) -> PlainFormView {
        if key == enter_key() {
            self.submit()
        } else {
            self
        }
    }
}

/// The texts of `list`, each as its characters, in the same order.
pub open spec fn text_views(list: Seq<String>) -> Seq<Seq<char>> {
    list.map_values(|text: String| text@)
}

/// The state of the plain form.
pub struct PlainForm {
    answers: Vec<String>,
    input_value: String,
}

impl View for PlainForm {
    type V = PlainFormView;

    closed spec fn view(&self) -> PlainFormView {
        PlainFormView { answers: text_views(self.answers@), input_value: self.input_value@ }
    }
}

impl PlainForm {
    /// A new form.
    pub fn new() -> (form: PlainForm)
        ensures
            form@ == PlainFormView::init(),
    {
        let form = PlainForm { answers: Vec::new(), input_value: String::new() };
        assert(text_views(form.answers@) =~= Seq::empty());
        form
    }

    /// Appends `text` to the list and empties the text field. Any text is
    /// taken, the empty one and one that the list already holds too.
    pub fn add_answer(&mut self, text: String)
        ensures
            final(self)@ == old(self)@.add_answer(text@),
    {
        let ghost added = text@;
        self.answers.push(text);
        self.input_value = String::new();
        assert(text_views(self.answers@) =~= text_views(old(self).answers@).push(added));
    }

    /// Replaces the content of the text field by `text`.
    pub fn update_input(&mut self, text: String)
        ensures
            final(self)@ == old(self)@.update_input(text@),
    {
        self.input_value = text;
        assert(self@.answers == old(self)@.answers);
    }

    /// Handles the button: adds the content of the text field.
    pub fn submit(&mut self)
        ensures
            final(self)@ == old(self)@.submit(),
    {
        let text = self.input_value.clone();
        self.add_answer(text);
    }

    /// Handles `key` going down in the text field, and says whether an answer
    /// was added.
    pub fn key_down(&mut self, key: &str) -> (added: bool)
        ensures
            final(self)@ == old(self)@.key_down(key@),
            added == (key@ == enter_key()),
    {
        if is_enter(key) {
            self.submit();
            true
        } else {
            false
        }
    }

    /// The answers, from first to last.
    pub fn answers(&self) -> (list: &Vec<String>)
        ensures
            text_views(list@) == self@.answers,
    {
        &self.answers
    }

    /// The content of the text field.
    pub fn input_value(&self) -> (text: &String)
        ensures
            text@ == self@.input_value,
    {
        &self.input_value
    }
}

} // verus!

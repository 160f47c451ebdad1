//! The identified form: answers that carry identifiers and can be deleted.

use vstd::prelude::*;
use crate::answer::{answer_views, Answer, AnswerView};
use crate::ids::IdAllocator;
use crate::message::{Msg, MsgView};

verus! {

/// What an [`App`] stands for: the answers from first to last, the content of
/// the text field, and the identifier that the next answer will get.
pub struct AppView {
    pub answers: Seq<AnswerView>,
    pub input_value: Seq<char>,
    pub next_id: nat,
}

impl AppView {
    /// The state of a new form: no answers, an empty text field, and zero as
    /// the first identifier.
    pub open spec fn init() -> AppView {
        AppView { answers: Seq::empty(), input_value: Seq::empty(), next_id: 0 }
    }

    /// Whether some answer of the list carries `id`.
    pub open spec fn holds(self, id: nat) -> bool {
        exists|i: int| 0 <= i < self.answers.len() && self.answers[i].id == id
    }

    /// Whether `i` is the first place of the list whose answer carries `id`.
    pub open spec fn is_first(self, id: nat, i: int) -> bool {
        &&& 0 <= i < self.answers.len()
        &&& self.answers[i].id == id
        &&& forall|j: int| 0 <= j < i ==> self.answers[j].id != id
    }

    /// The first place of the list whose answer carries `id`, where there is one.
    pub open spec fn position(self, id: nat) -> int {
        choose|i: int| self.is_first(id, i)
    }

    /// The state after `text` was added: a new answer at the end of the list
    /// under the next identifier, and an empty text field.
    pub open spec fn add_answer(self, text: Seq<char>) -> AppView {
        AppView {
            answers: self.answers.push(AnswerView { id: self.next_id, text }),
            input_value: Seq::empty(),
            next_id: self.next_id + 1,
        }
    }

    /// The state after the answer with `id` was deleted: the list without the
    /// first answer that carries `id`, or the same state where none does.
    pub open spec fn delete_answer_by_id(self, id: nat) -> AppView {
        if self.holds(id) {
            AppView { answers: self.answers.remove(self.position(id)), ..self }
        } else {
            self
        }
    }

    /// The state after the text field was set to `text`.
    pub open spec fn update_input(self, text: Seq<char>) -> AppView {
        AppView { input_value: text, ..self }
    }

    /// The state after `msg` was handled.
    pub open spec fn update(self, msg: MsgView) -> AppView {
        match msg {
            MsgView::AddAnswer(text) => self.add_answer(text),
            MsgView::DeleteAnswerById(id) => self.delete_answer_by_id(id),
            MsgView::UpdateInput(text) => self.update_input(text),
        }
    }

    /// Whether the page has to be drawn again after `msg` was handled: always,
    /// except after a request to delete an identifier that no answer carries.
    pub open spec fn redraws(self, msg: MsgView) -> bool {
        match msg {
            MsgView::DeleteAnswerById(id) => self.holds(id),
            _ => true,
        }
    }

    /// The identifiers grow along the list and lie below the next one. So no
    /// two answers of the list carry the same identifier.
    pub open spec fn well_formed(self) -> bool {
        &&& forall|i: int| 0 <= i < self.answers.len() ==> self.answers[i].id < self.next_id
        &&& forall|i: int, j: int|
            0 <= i < j < self.answers.len() ==> self.answers[i].id < self.answers[j].id
    }
}

/// The state of the identified form.
pub struct App {
    answers: Vec<Answer>,
    input_value: String,
    ids: IdAllocator,
}

impl View for App {
    type V = AppView;

    closed spec fn view(&self) -> AppView {
        AppView {
            answers: answer_views(self.answers@),
            input_value: self.input_value@,
            next_id: self.ids@,
        }
    }
}

impl App {
    /// A new form.
    pub fn create() -> (app: App)
        ensures
            app@ == AppView::init(),
            app@.well_formed(),
    {
        let app = App { answers: Vec::new(), input_value: String::new(), ids: IdAllocator::new() };
        assert(answer_views(app.answers@) =~= Seq::empty());
        app
    }

    /// A new form that takes its identifiers from `ids`.
    pub fn with_ids(ids: IdAllocator) -> (app: App)
        ensures
            app@ == (AppView { next_id: ids@, ..AppView::init() }),
            app@.well_formed(),
    {
        let app = App { answers: Vec::new(), input_value: String::new(), ids };
        assert(answer_views(app.answers@) =~= Seq::empty());
        app
    }

    /// Whether the form has an identifier left for a new answer.
    pub fn can_add(&self) -> (can: bool)
        ensures
            can == (self@.next_id <= usize::MAX),
    {
        self.ids.can_allocate()
    }

    /// Appends `text` as a new answer and empties the text field. Any text is
    /// taken, the empty one and one that the list already holds too.
    pub fn add_answer(&mut self, text: String)
        requires
            old(self)@.next_id <= usize::MAX,
        ensures
            final(self)@ == old(self)@.add_answer(text@),
            old(self)@.well_formed() ==> final(self)@.well_formed(),
    {
        let id: usize = self.ids.allocate();
        let answer = Answer::new(id, text);
        self.answers.push(answer);
        self.input_value = String::new();
        assert(answer_views(self.answers@) =~= answer_views(old(self).answers@).push(answer@));
    }

    /// Takes the first answer that carries `id` out of the list and says
    /// whether there was one. Without one, nothing changes.
    pub fn delete_answer_by_id(&mut self, id: usize) -> (found: bool)
        ensures
            found == old(self)@.holds(id as nat),
            found ==> old(self)@.is_first(id as nat, old(self)@.position(id as nat)),
            final(self)@ == old(self)@.delete_answer_by_id(id as nat),
            old(self)@.well_formed() ==> final(self)@.well_formed(),
    {
        let mut pos: usize = 0;
        while pos < self.answers.len()
            invariant
                *self == *old(self),
                pos <= self.answers.len(),
                forall|j: int| 0 <= j < pos ==> self@.answers[j].id != id,
            decreases self.answers.len() - pos,
        {
            if self.answers[pos].id() == id {
                assert(self@.is_first(id as nat, pos as int));
                assert(self@.position(id as nat) == pos);
                self.answers.remove(pos);
                assert(answer_views(self.answers@) =~= old(self)@.answers.remove(pos as int));
                return true;
            }
            pos += 1;
        }
        false
    }

    /// Replaces the content of the text field by `text`.
    pub fn update_input(&mut self, text: String)
        ensures
            final(self)@ == old(self)@.update_input(text@),
            old(self)@.well_formed() ==> final(self)@.well_formed(),
    {
        self.input_value = text;
        assert(self@.answers == old(self)@.answers);
    }

    /// Handles `msg` and says whether the page has to be drawn again. A request
    /// to add needs an identifier: see [`App::can_add`].
    pub fn update(&mut self, msg: Msg) -> (redraw: bool)
        requires
            msg is AddAnswer ==> old(self)@.next_id <= usize::MAX,
        ensures
            final(self)@ == old(self)@.update(msg@),
            redraw == old(self)@.redraws(msg@),
            old(self)@.well_formed() ==> final(self)@.well_formed(),
    {
        match msg {
            Msg::AddAnswer(text) => {
                self.add_answer(text);
                true
            },
            Msg::DeleteAnswerById(id) => self.delete_answer_by_id(id),
            Msg::UpdateInput(text) => {
                self.update_input(text);
                true
            },
        }
    }

    /// The answers, from first to last.
    pub fn answers(&self) -> (list: &Vec<Answer>)
        ensures
            answer_views(list@) == self@.answers,
    {
        &self.answers
    }

    /// The content of the text field.
    pub fn input_value(&self) -> (text: &String)
        ensures
            text@ == self@.input_value,
    {
        &self.input_value
    }
}

} // verus!

//! What a page shows for a state of the identified form, and the messages that
//! its controls send.

use vstd::prelude::*;
use vstd::std_specs::cmp::PartialEqSpec;
use crate::answer::{Answer, AnswerView};
use crate::keys::{enter_key, is_enter};
use crate::message::{Msg, MsgView};
use crate::state::{App, AppView};

verus! {

/// The question that the identified form puts above its list.
pub const QUESTION: &'static str =
    "Once you have identified the cause of your stress, enter the items on this form";

/// What a [`Row`] stands for.
pub struct RowView {
    pub text: Seq<char>,
    pub on_delete: MsgView,
}

/// One line of the list as it is shown: the text of an answer, and the message
/// that the delete control beside it sends.
#[derive(Debug)]
pub struct Row {
    pub text: String,
    pub on_delete: Msg,
}

impl PartialEq for Row {
    fn eq(&self, other: &Row) -> (equal: bool) {
        self.text == other.text && self.on_delete == other.on_delete
    }
}

impl vstd::std_specs::cmp::PartialEqSpecImpl for Row {
    open spec fn obeys_eq_spec() -> bool {
        true
    }

    /// Two lines are equal where they show the same text and their delete
    /// controls send the same message.
    open spec fn eq_spec(&self, other: &Row) -> bool {
        self@ == other@
    }
}

impl Eq for Row {}

impl Clone for Row {
    fn clone(&self) -> (copy: Row)
        ensures
            copy == *self,
    {
        Row { text: self.text.clone(), on_delete: self.on_delete.clone() }
    }
}

impl View for Row {
    type V = RowView;

    open spec fn view(&self) -> RowView {
        RowView { text: self.text@, on_delete: self.on_delete@ }
    }
}

/// The line that shows the answer `a`: its text, with a delete control that
/// asks for the deletion of its identifier.
pub open spec fn row_of(a: AnswerView) -> RowView {
    RowView { text: a.text, on_delete: MsgView::DeleteAnswerById(a.id) }
}

/// The lines of `rows`, each as what it stands for, in the same order.
pub open spec fn row_views(rows: Seq<Row>) -> Seq<RowView> {
    rows.map_values(|r: Row| r@)
}

/// What a [`Screen`] stands for.
pub struct ScreenView {
    pub question: Seq<char>,
    pub rows: Seq<RowView>,
    pub input_value: Seq<char>,
}

/// Everything that a page shows for one state: the question, the lines of the
/// list from top to bottom, and the content of the text field.
///
/// A screen is a snapshot. The messages of its text field and its button carry
/// the content that the state had when the screen was made.
#[derive(Debug)]
pub struct Screen {
    pub question: String,
    pub rows: Vec<Row>,
    pub input_value: String,
}

impl PartialEq for Screen {
    fn eq(&self, other: &Screen) -> (equal: bool) {
        proof {
            lemma_rows_equal_as_their_views(self.rows, other.rows);
        }
        self.question == other.question && self.rows == other.rows && self.input_value
            == other.input_value
    }
}

/// Two lists of lines are equal line by line exactly where they stand for the
/// same lines in the same order.
proof fn lemma_rows_equal_as_their_views(a: Vec<Row>, b: Vec<Row>)
    ensures
        a.eq_spec(&b) <==> row_views(a@) == row_views(b@),
{
    if a.eq_spec(&b) {
        assert forall|i: int| 0 <= i < a@.len() implies a@[i]@ == b@[i]@ by {
            assert(a[i].eq_spec(&b[i]));
        }
        assert(row_views(a@) =~= row_views(b@));
    }
    if row_views(a@) == row_views(b@) {
        assert(a@.len() == row_views(a@).len());
        assert(b@.len() == row_views(b@).len());
        assert forall|i: int| 0 <= i < a.len() implies #[trigger] a[i].eq_spec(&b[i]) by {
            assert(row_views(a@)[i] == a@[i]@);
            assert(row_views(b@)[i] == b@[i]@);
        }
    }
}

impl vstd::std_specs::cmp::PartialEqSpecImpl for Screen {
    open spec fn obeys_eq_spec() -> bool {
        true
    }

    /// Two screens are equal where they show the same question, the same
    /// lines in the same order, and the same content of the text field.
    open spec fn eq_spec(&self, other: &Screen) -> bool {
        self@ == other@
    }
}

impl Eq for Screen {}

impl View for Screen {
    type V = ScreenView;

    open spec fn view(&self) -> ScreenView {
        ScreenView {
            question: self.question@,
            rows: row_views(self.rows@),
            input_value: self.input_value@,
        }
    }
}

impl AppView {
    /// What a page shows for this state under `question`: one line for each
    /// answer, in the order of the list, and the text field with exactly the
    /// stored content.
    pub open spec fn screen(self, question: Seq<char>) -> ScreenView {
        ScreenView {
            question,
            rows: self.answers.map_values(|a: AnswerView| row_of(a)),
            input_value: self.input_value,
        }
    }
}

impl ScreenView {
    /// The message of the text field when its content has changed to `value`.
    pub open spec fn on_input(self, value: Seq<char>) -> MsgView {
        MsgView::UpdateInput(value)
    }

    /// The message of the text field when `key` goes down in it. Enter submits
    /// the content of this screen; any other key stores that same content
    /// again, without the character that the key is about to add.
    pub open spec fn on_keydown(self, key: Seq<char>) -> MsgView {
        if key == enter_key() {
            MsgView::AddAnswer(self.input_value)
        } else {
            MsgView::UpdateInput(self.input_value)
        }
    }

    /// The message of the button: it submits the content of this screen.
    pub open spec fn on_click(self) -> MsgView {
        MsgView::AddAnswer(self.input_value)
    }
}

/// The lines that show `answers`: one for each answer, in the same order, and
/// none for an empty list.
pub fn answer_list(answers: &Vec<Answer>) -> (rows: Vec<Row>)
    ensures
        rows@.len() == answers@.len(),
        forall|i: int| 0 <= i < answers@.len() ==> (#[trigger] rows@[i])@ == row_of(answers@[i]@),
{
    let mut rows: Vec<Row> = Vec::new();
    let mut i: usize = 0;
    while i < answers.len()
        invariant
            i <= answers@.len(),
            rows@.len() == i,
            forall|k: int| 0 <= k < i ==> (#[trigger] rows@[k])@ == row_of(answers@[k]@),
        decreases answers@.len() - i,
    {
        let answer = &answers[i];
        rows.push(Row { text: answer.text().clone(), on_delete: Msg::DeleteAnswerById(answer.id()) });
        i += 1;
    }
    rows
}

impl App {
    /// What a page shows for this state under `question`.
    pub fn render(&self, question: &str) -> (screen: Screen)
        ensures
            screen@ == self@.screen(question@),
    {
        let rows = answer_list(self.answers());
        let screen = Screen {
            question: question.to_owned(),
            rows,
            input_value: self.input_value().clone(),
        };
        assert(screen@.rows =~= self@.screen(question@).rows);
        screen
    }
}

impl Screen {
    /// The message of the text field when its content has changed to `value`.
    pub fn on_input(&self, value: String) -> (msg: Msg)
        ensures
            msg@ == self@.on_input(value@),
    {
        Msg::UpdateInput(value)
    }

    /// The message of the text field when `key` goes down in it.
    pub fn on_keydown(&self, key: &str) -> (msg: Msg)
        ensures
            msg@ == self@.on_keydown(key@),
    {
        if is_enter(key) {
            Msg::AddAnswer(self.input_value.clone())
        } else {
            Msg::UpdateInput(self.input_value.clone())
        }
    }

    /// The message of the button.
    pub fn on_click(&self) -> (msg: Msg)
        ensures
            msg@ == self@.on_click(),
    {
        Msg::AddAnswer(self.input_value.clone())
    }
}

} // verus!

//! What holds of the two forms over whole runs of messages.

use vstd::prelude::*;
use crate::keys::enter_key;
use crate::message::MsgView;
use crate::plain::PlainFormView;
use crate::state::AppView;

verus! {

impl AppView {
    /// The state reached from this one by adding the texts of `texts` one after
    /// another, the first one first.
    pub open spec fn add_each(self, texts: Seq<Seq<char>>) -> AppView
        decreases texts.len(),
    {
        if texts.len() == 0 {
            self
        } else {
            self.add_each(texts.drop_last()).add_answer(texts.last())
        }
    }

    /// The state reached from this one by handling the messages of `msgs` one
    /// after another, the first one first.
    pub open spec fn run(self, msgs: Seq<MsgView>) -> AppView
        decreases msgs.len(),
    {
        if msgs.len() == 0 {
            self
        } else {
            self.run(msgs.drop_last()).update(msgs.last())
        }
    }
}

/// Adding texts one after another makes the list longer by one answer for
/// each text, whatever the texts are: the answers that were there stay where
/// they were, and behind them stand the new texts in the order in which they
/// were added.
pub proof fn lemma_add_each_appends_in_order(s: AppView, texts: Seq<Seq<char>>)
    ensures
        s.add_each(texts).answers.len() == s.answers.len() + texts.len(),
        forall|i: int|
            0 <= i < s.answers.len() ==> #[trigger] s.add_each(texts).answers[i] == s.answers[i],
        forall|i: int|
            s.answers.len() <= i < s.answers.len() + texts.len() ==> (#[trigger] s.add_each(
                texts,
            ).answers[i]).text == texts[i - s.answers.len()],
    decreases texts.len(),
{
    if texts.len() > 0 {
        lemma_add_each_appends_in_order(s, texts.drop_last());
    }
}

/// The answers that were added one after another carry the identifiers from
/// the next one of the first state upwards: each is larger than the one
/// before, so no two are the same.
pub proof fn lemma_add_each_counts_identifiers_up(s: AppView, texts: Seq<Seq<char>>)
    ensures
        forall|i: int|
            s.answers.len() <= i < s.answers.len() + texts.len() ==> (#[trigger] s.add_each(
                texts,
            ).answers[i]).id == s.next_id + (i - s.answers.len()),
        forall|i: int, j: int|
            s.answers.len() <= i < j < s.answers.len() + texts.len() ==> (#[trigger] s.add_each(
                texts,
            ).answers[i]).id < (#[trigger] s.add_each(texts).answers[j]).id,
        forall|i: int, j: int|
            s.answers.len() <= i < s.answers.len() + texts.len() && s.answers.len() <= j
                < s.answers.len() + texts.len() && i != j ==> (#[trigger] s.add_each(
                texts,
            ).answers[i]).id != (#[trigger] s.add_each(texts).answers[j]).id,
        s.add_each(texts).next_id == s.next_id + texts.len(),
    decreases texts.len(),
{
    lemma_add_each_appends_in_order(s, texts);
    if texts.len() > 0 {
        lemma_add_each_appends_in_order(s, texts.drop_last());
        lemma_add_each_counts_identifiers_up(s, texts.drop_last());
    }
}

/// Deleting an identifier that the list holds takes exactly one answer out:
/// the first one that carries it. The answers before it stay where they were,
/// the answers behind it move up by one place, and nothing else changes. In a
/// well-formed state no other answer carried the identifier, so the list does
/// not hold it afterwards.
pub proof fn lemma_delete_takes_one_out(s: AppView, id: nat)
    requires
        s.holds(id),
    ensures
        s.is_first(id, s.position(id)),
        s.delete_answer_by_id(id).answers.len() == s.answers.len() - 1,
        forall|j: int|
            0 <= j < s.position(id) ==> #[trigger] s.delete_answer_by_id(id).answers[j]
                == s.answers[j],
        forall|j: int|
            s.position(id) <= j < s.answers.len() - 1 ==> #[trigger] s.delete_answer_by_id(
                id,
            ).answers[j] == s.answers[j + 1],
        s.delete_answer_by_id(id).input_value == s.input_value,
        s.delete_answer_by_id(id).next_id == s.next_id,
        s.well_formed() ==> !s.delete_answer_by_id(id).holds(id),
        s.well_formed() ==> s.delete_answer_by_id(id).well_formed(),
{
    lemma_first_place_exists(s, id);
    let p: int = s.position(id);
    let t = s.delete_answer_by_id(id);
    if s.well_formed() {
        assert forall|j: int| 0 <= j < t.answers.len() implies (#[trigger] t.answers[j]).id
            != id by {
            if j < p {
                assert(t.answers[j] == s.answers[j]);
            } else {
                assert(t.answers[j] == s.answers[j + 1]);
            }
        }
    }
}

/// Where some answer carries `id`, some answer is the first to carry it.
pub proof fn lemma_first_place_exists(s: AppView, id: nat)
    requires
        s.holds(id),
    ensures
        s.is_first(id, s.position(id)),
{
    let i = choose|i: int| 0 <= i < s.answers.len() && s.answers[i].id == id;
    lemma_first_place_at_or_before(s, id, i);
}

/// Where the answer at place `i` carries `id`, the first answer to carry it
/// stands there or before.
proof fn lemma_first_place_at_or_before(s: AppView, id: nat, i: int)
    requires
        0 <= i < s.answers.len(),
        s.answers[i].id == id,
    ensures
        exists|k: int| s.is_first(id, k),
    decreases i,
{
    if exists|j: int| 0 <= j < i && s.answers[j].id == id {
        let j = choose|j: int| 0 <= j < i && s.answers[j].id == id;
        lemma_first_place_at_or_before(s, id, j);
    } else {
        assert(s.is_first(id, i));
    }
}

/// Deleting an identifier that the list does not hold changes nothing, and the
/// page is not drawn again.
pub proof fn lemma_delete_of_absent_changes_nothing(s: AppView, id: nat)
    requires
        !s.holds(id),
    ensures
        s.delete_answer_by_id(id) == s,
        s.update(MsgView::DeleteAnswerById(id)) == s,
        !s.redraws(MsgView::DeleteAnswerById(id)),
{
}

/// After an answer was added the text field is empty, whatever it held before
/// and whatever was added.
pub proof fn lemma_add_empties_the_text_field(s: AppView, text: Seq<char>)
    ensures
        s.add_answer(text).input_value == Seq::<char>::empty(),
        s.update(MsgView::AddAnswer(text)).input_value == Seq::<char>::empty(),
{
}

/// The text field holds exactly what it was last set to, until an answer is
/// added: deletions, however many and whether they find their answer or not,
/// leave it alone.
pub proof fn lemma_input_stays_until_added(s: AppView, text: Seq<char>, ids: Seq<nat>)
    ensures
        s.update_input(text).input_value == text,
        s.update(MsgView::UpdateInput(text)).run(
            ids.map_values(|id: nat| MsgView::DeleteAnswerById(id)),
        ).input_value == text,
    decreases ids.len(),
{
    let msgs = ids.map_values(|id: nat| MsgView::DeleteAnswerById(id));
    if ids.len() > 0 {
        lemma_input_stays_until_added(s, text, ids.drop_last());
        assert(msgs.drop_last() =~= ids.drop_last().map_values(
            |id: nat| MsgView::DeleteAnswerById(id),
        ));
    }
}

/// How many of `msgs` ask for an answer to be added.
pub open spec fn adds_in(msgs: Seq<MsgView>) -> nat
    decreases msgs.len(),
{
    if msgs.len() == 0 {
        0
    } else if msgs.last() is AddAnswer {
        adds_in(msgs.drop_last()) + 1
    } else {
        adds_in(msgs.drop_last())
    }
}

/// A new form is well-formed, and every message keeps a state well-formed:
/// the identifiers of the list stay in growing order and below the next one,
/// which has moved up by one for each answer that was added. So no two answers
/// of a list ever carry the same identifier.
pub proof fn lemma_run_keeps_well_formed(s: AppView, msgs: Seq<MsgView>)
    requires
        s.well_formed(),
    ensures
        s.run(msgs).well_formed(),
        s.run(msgs).next_id == s.next_id + adds_in(msgs),
        forall|i: int, j: int|
            0 <= i < s.run(msgs).answers.len() && 0 <= j < s.run(msgs).answers.len() && i != j ==> (
            #[trigger] s.run(msgs).answers[i]).id != (#[trigger] s.run(msgs).answers[j]).id,
        AppView::init().well_formed(),
    decreases msgs.len(),
{
    if msgs.len() > 0 {
        lemma_run_keeps_well_formed(s, msgs.drop_last());
        let before = s.run(msgs.drop_last());
        match msgs.last() {
            MsgView::DeleteAnswerById(id) => {
                if before.holds(id) {
                    lemma_delete_takes_one_out(before, id);
                }
            },
            _ => {},
        }
    }
}

/// An identifier that was given out before and is no longer in the list does
/// not come back, whatever messages follow.
pub proof fn lemma_used_identifier_does_not_come_back(s: AppView, msgs: Seq<MsgView>, id: nat)
    requires
        s.well_formed(),
        id < s.next_id,
        !s.holds(id),
    ensures
        !s.run(msgs).holds(id),
    decreases msgs.len(),
{
    if msgs.len() > 0 {
        let before = s.run(msgs.drop_last());
        let after = s.run(msgs);
        lemma_used_identifier_does_not_come_back(s, msgs.drop_last(), id);
        lemma_run_keeps_well_formed(s, msgs.drop_last());
        match msgs.last() {
            MsgView::DeleteAnswerById(gone) => {
                if before.holds(gone) {
                    lemma_delete_takes_one_out(before, gone);
                    let p: int = before.position(gone);
                    assert forall|j: int| 0 <= j < after.answers.len() implies (
                    #[trigger] after.answers[j]).id != id by {
                        if j < p {
                            assert(after.answers[j] == before.answers[j]);
                        } else {
                            assert(after.answers[j] == before.answers[j + 1]);
                        }
                    }
                }
            },
            _ => {},
        }
    }
}

impl PlainFormView {
    /// The state reached from this one by adding the texts of `texts` one after
    /// another, the first one first.
    pub open spec fn add_each(self, texts: Seq<Seq<char>>) -> PlainFormView
        decreases texts.len(),
    {
        if texts.len() == 0 {
            self
        } else {
            self.add_each(texts.drop_last()).add_answer(texts.last())
        }
    }
}

/// Adding texts to the plain form one after another puts exactly these texts
/// behind the answers that were there, in the order in which they were added,
/// whatever the texts are. The list grows by one answer for each of them.
pub proof fn lemma_plain_add_each_appends_in_order(s: PlainFormView, texts: Seq<Seq<char>>)
    ensures
        s.add_each(texts).answers == s.answers + texts,
        s.add_each(texts).answers.len() == s.answers.len() + texts.len(),
    decreases texts.len(),
{
    if texts.len() > 0 {
        lemma_plain_add_each_appends_in_order(s, texts.drop_last());
        assert(s.add_each(texts).answers =~= s.answers + texts);
    } else {
        assert(s.answers =~= s.answers + texts);
    }
}

/// After an answer was added to the plain form, by the button, by Enter or
/// directly, the text field is empty.
pub proof fn lemma_plain_add_empties_the_text_field(s: PlainFormView, text: Seq<char>)
    ensures
        s.add_answer(text).input_value == Seq::<char>::empty(),
        s.submit().input_value == Seq::<char>::empty(),
        s.key_down(enter_key()).input_value == Seq::<char>::empty(),
{
}

/// The text field of the plain form holds exactly what it was last set to,
/// until an answer is added: a key other than Enter changes nothing.
pub proof fn lemma_plain_input_stays_until_added(s: PlainFormView, text: Seq<char>, key: Seq<char>)
    requires
        key != enter_key(),
    ensures
        s.update_input(text).input_value == text,
        s.update_input(text).answers == s.answers,
        s.update_input(text).key_down(key) == s.update_input(text),
{
}

} // verus!

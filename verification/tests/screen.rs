use answer_form::screen::{answer_list, Row, Screen, QUESTION};
use answer_form::{Answer, App, Msg};

fn owned(s: &str) -> String {
    String::from(s)
}

#[test]
fn question_is_the_fixed_prompt() {
    assert_eq!(
        QUESTION,
        "Once you have identified the cause of your stress, enter the items on this form"
    );
}

#[test]
fn empty_list_has_no_rows() {
    assert_eq!(answer_list(&Vec::new()), Vec::new());
    assert!(App::create().render(QUESTION).rows.is_empty());
}

#[test]
fn rows_follow_the_answers_in_order() {
    let answers = vec![
        Answer::new(4, owned("four")),
        Answer::new(2, owned("two")),
        Answer::new(9, owned("")),
    ];
    assert_eq!(
        answer_list(&answers),
        vec![
            Row { text: owned("four"), on_delete: Msg::DeleteAnswerById(4) },
            Row { text: owned("two"), on_delete: Msg::DeleteAnswerById(2) },
            Row { text: owned(""), on_delete: Msg::DeleteAnswerById(9) },
        ]
    );
}

#[test]
fn screen_shows_the_state() {
    let mut app = App::create();
    app.add_answer(owned("stress"));
    app.add_answer(owned("tired"));
    app.update_input(owned("hun"));
    assert_eq!(
        app.render("Why?"),
        Screen {
            question: owned("Why?"),
            rows: vec![
                Row { text: owned("stress"), on_delete: Msg::DeleteAnswerById(0) },
                Row { text: owned("tired"), on_delete: Msg::DeleteAnswerById(1) },
            ],
            input_value: owned("hun"),
        }
    );
}

#[test]
fn screen_leaves_the_state_as_it_was() {
    let mut app = App::create();
    app.add_answer(owned("stress"));
    app.update_input(owned("draft"));
    let first = app.render(QUESTION);
    let second = app.render(QUESTION);
    assert_eq!(first, second);
    assert_eq!(app.answers(), &vec![Answer::new(0, owned("stress"))]);
    assert_eq!(app.input_value(), "draft");
}

#[test]
fn delete_control_removes_its_own_row() {
    let mut app = App::create();
    for t in ["a", "b", "c"] {
        app.add_answer(owned(t));
    }
    let screen = app.render(QUESTION);
    assert!(app.update(screen.rows[1].on_delete.clone()));
    assert_eq!(
        app.render(QUESTION).rows,
        vec![
            Row { text: owned("a"), on_delete: Msg::DeleteAnswerById(0) },
            Row { text: owned("c"), on_delete: Msg::DeleteAnswerById(2) },
        ]
    );
    assert!(!app.update(screen.rows[1].on_delete.clone()));
}

#[test]
fn input_event_carries_the_new_content() {
    let screen = App::create().render(QUESTION);
    assert_eq!(screen.on_input(owned("h")), Msg::UpdateInput(owned("h")));
    assert_eq!(screen.on_input(owned("")), Msg::UpdateInput(owned("")));
}

#[test]
fn enter_submits_the_content_of_the_screen() {
    let mut app = App::create();
    app.update_input(owned("hello"));
    let screen = app.render(QUESTION);
    assert_eq!(screen.on_keydown("Enter"), Msg::AddAnswer(owned("hello")));

    assert!(app.update(screen.on_keydown("Enter")));
    assert_eq!(app.answers(), &vec![Answer::new(0, owned("hello"))]);
    assert_eq!(app.input_value(), "");
}

#[test]
fn enter_on_an_empty_field_submits_the_empty_text() {
    let screen = App::create().render(QUESTION);
    assert_eq!(screen.on_keydown("Enter"), Msg::AddAnswer(owned("")));
}

#[test]
fn another_key_stores_the_content_of_the_screen_again() {
    let mut app = App::create();
    app.update_input(owned("hell"));
    let screen = app.render(QUESTION);
    for key in ["o", "enter", "Backspace", "", "Shift"] {
        assert_eq!(screen.on_keydown(key), Msg::UpdateInput(owned("hell")));
    }
    assert!(app.update(screen.on_keydown("o")));
    assert_eq!(app.input_value(), "hell");
    assert!(app.answers().is_empty());
}

#[test]
fn button_submits_the_content_of_the_screen() {
    let mut app = App::create();
    app.update_input(owned("tired"));
    let screen = app.render(QUESTION);
    assert_eq!(screen.on_click(), Msg::AddAnswer(owned("tired")));

    app.update_input(owned("tired and more"));
    assert_eq!(screen.on_click(), Msg::AddAnswer(owned("tired")));
    assert_eq!(app.render(QUESTION).on_click(), Msg::AddAnswer(owned("tired and more")));
}

#[test]
fn rows_compare_by_text_and_message() {
    let row = Row { text: owned("a"), on_delete: Msg::DeleteAnswerById(1) };
    assert_eq!(row.clone(), row);
    assert_eq!(row, Row { text: owned("a"), on_delete: Msg::DeleteAnswerById(1) });
    assert_ne!(row, Row { text: owned("b"), on_delete: Msg::DeleteAnswerById(1) });
    assert_ne!(row, Row { text: owned("a"), on_delete: Msg::DeleteAnswerById(2) });
    assert_ne!(row, Row { text: owned("a"), on_delete: Msg::AddAnswer(owned("a")) });
}

#[test]
fn screens_compare_by_what_they_show() {
    let mut app = App::create();
    app.add_answer(owned("a"));
    app.add_answer(owned("b"));
    let screen = app.render("q");

    assert_ne!(screen, app.render("another q"));

    let mut typed = App::create();
    typed.add_answer(owned("a"));
    typed.add_answer(owned("b"));
    typed.update_input(owned("c"));
    assert_ne!(screen, typed.render("q"));

    let mut shorter = App::create();
    shorter.add_answer(owned("a"));
    assert_ne!(screen, shorter.render("q"));

    let mut swapped = App::create();
    swapped.add_answer(owned("b"));
    swapped.add_answer(owned("a"));
    assert_ne!(screen, swapped.render("q"));

    let mut same = App::create();
    same.add_answer(owned("a"));
    same.add_answer(owned("b"));
    assert_eq!(screen, same.render("q"));
}

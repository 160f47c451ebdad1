//! The state behind a small answer form: a question, a text field and the list
//! of answers given so far.
//!
//! Two forms are offered. [`App`] tags every answer with an identifier, so that
//! a single answer can be taken out of the list again; [`PlainForm`] keeps bare
//! texts and only ever grows. Neither knows how it is drawn: each is a state
//! with the transitions that the events of a page cause, and [`App::render`]
//! describes what a page has to show for a state.

pub mod answer;
pub mod ids;
pub mod keys;
pub mod laws;
pub mod message;
pub mod plain;
pub mod screen;
pub mod state;

pub use answer::Answer;
pub use ids::IdAllocator;
pub use message::Msg;
pub use plain::PlainForm;
pub use screen::{answer_list, Row, Screen, QUESTION};
pub use state::App;

//! A three-step calculator form: two integers and an operator are collected
//! through a line-editing text field, the result is computed and recorded in
//! a log of past interactions.
//!
//! The library holds the state of the form and every rule that changes it.
//! It performs no input or output: a host feeds it key presses and reads the
//! state back to draw it.

pub mod app;
pub mod display;
pub mod event;
pub mod form;
pub mod input_mode;
pub mod laws;
pub mod model;
pub mod numeral;
pub mod operator;
pub mod text;
pub mod utf8;

pub use app::App;
pub use display::{EntryKind, LogLine, Prompt};
pub use event::{Action, Key, KeyPhase};
pub use input_mode::InputMode;
pub use model::Stage;
pub use operator::{ArithmeticError, Operator};

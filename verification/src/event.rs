//! Key presses: what each does to the form in each mode.

use crate::app::App;
use crate::input_mode::InputMode;
use crate::model::FormState;
use vstd::prelude::*;

verus! {

/// The keys that the form tells apart.
#[derive(Clone, Copy, Debug, PartialEq, Eq)]
pub enum Key {
    /// A key that stands for a character.
    Char(char),
    /// The enter key.
    Enter,
    /// The backspace key.
    Backspace,
    /// The left arrow.
    Left,
    /// The right arrow.
    Right,
    /// The escape key.
    Esc,
    /// Any other key.
    Other,
}

/// The phase of a keystroke that an event reports.
#[derive(Clone, Copy, Debug, PartialEq, Eq)]
pub enum KeyPhase {
    /// The key went down.
    Press,
    /// The key is held and repeats.
    Repeat,
    /// The key went up.
    Release,
}

/// What the host does after a key was handled.
#[derive(Clone, Copy, Debug, PartialEq, Eq)]
pub enum Action {
    /// Go on: draw the form and wait for the next key.
    Continue,
    /// Leave the program.
    Quit,
}

impl FormState {
    /// The mode changed to `mode`.
    pub open spec fn with_mode(self, mode: InputMode) -> FormState {
        FormState { mode, ..self }
    }

    /// The key `key` ends the program: `q` or escape in normal mode,
    /// whatever the phase.
    pub open spec fn quits(self, key: Key) -> bool {
        self.mode == InputMode::Normal && (key == Key::Char('q') || key == Key::Esc)
    }

    /// The state after the key `key` in phase `phase`.
    ///
    /// In normal mode `e` starts editing and `c` clears the log and the
    /// slots, in any phase; every other key leaves the state as it is.
    /// In editing mode only a press counts: enter submits the text field, a
    /// character is inserted, backspace deletes, the arrows move the cursor,
    /// escape goes back to normal mode and keeps the text.
    pub open spec fn handle(self, key: Key, phase: KeyPhase) -> FormState {
        match self.mode {
            InputMode::Normal => match key {
                Key::Char(c) => if c == 'e' {
                    self.with_mode(InputMode::Editing)
                } else if c == 'c' {
                    self.clear_all()
                } else {
                    self
                },
                _ => self,
            },
            InputMode::Editing => if phase != KeyPhase::Press {
                self
            } else {
                match key {
                    Key::Enter => self.submit(),
                    Key::Char(c) => self.insert(c),
                    Key::Backspace => self.delete(),
                    Key::Left => self.move_left(),
                    Key::Right => self.move_right(),
                    Key::Esc => self.with_mode(InputMode::Normal),
                    Key::Other => self,
                }
            },
        }
    }
}

impl App {
    /// Applies the key `key`, reported in phase `phase`, to the form, and
    /// says whether the host goes on or leaves.
    pub fn handle_key(&mut self, key: Key, phase: KeyPhase) -> (action: Action)
        ensures
            final(self)@ == old(self)@.handle(key, phase),
            action == (if old(self)@.quits(key) {
                Action::Quit
            } else {
                Action::Continue
            }),
            action == Action::Quit ==> *final(self) == *old(self),
    {
        match self.input_mode {
            InputMode::Normal => match key {
                Key::Char(c) => {
                    if c == 'e' {
                        self.input_mode = InputMode::Editing;
                    } else if c == 'q' {
                        return Action::Quit;
                    } else if c == 'c' {
                        self.clear_messages();
                    }
                },
                Key::Esc => {
                    return Action::Quit;
                },
                _ => {},
            },
            InputMode::Editing => match phase {
                KeyPhase::Press => match key {
                    Key::Enter => self.submit_message(),
                    Key::Char(to_insert) => self.enter_char(to_insert),
                    Key::Backspace => self.delete_char(),
                    Key::Left => self.move_cursor_left(),
                    Key::Right => self.move_cursor_right(),
                    Key::Esc => {
                        self.input_mode = InputMode::Normal;
                    },
                    Key::Other => {},
                },
                _ => {},
            },
        }
        Action::Continue
    }
}

} // verus!

//! What a host needs to draw the form: the prompt that fits the state, the
//! log as numbered lines with their kinds, and the column of the cursor.

use crate::app::{texts, App};
use crate::input_mode::InputMode;
use crate::model::{FormState, Stage};
use crate::numeral::{append_natural, digits};
use crate::text::{chars_of, contains, contains_char, contains_run};
use vstd::prelude::*;
use vstd::string::StringExecFns;

verus! {

/// The kind of a log entry, by which a host picks its colour.
#[derive(Clone, Copy, Debug, PartialEq, Eq)]
pub enum EntryKind {
    /// A computed result: the entry holds an equals sign.
    Result,
    /// A rejected input: the entry holds the word `Invalid`.
    Error,
    /// Any other entry.
    Info,
}

/// What the help panel asks of the user.
#[derive(Clone, Copy, Debug, PartialEq, Eq)]
pub enum Prompt {
    /// Normal mode: the commands to quit, to edit and to clear.
    Commands,
    /// Editing mode, first operand unset: enter the first number.
    FirstNumber,
    /// Editing mode, second operand unset: enter the second number.
    SecondNumber,
    /// Editing mode, both operands set: enter the operation.
    Operation,
}

/// One line of the log as it is shown.
#[derive(Clone, Debug)]
pub struct LogLine {
    /// The index of the entry in the log, a colon, a space and the entry.
    pub text: String,
    /// The kind of the entry.
    pub kind: EntryKind,
}

/// The kind of the log entry `entry`: a result where it holds an equals
/// sign; else an error where it holds the word `Invalid`; else information.
pub open spec fn entry_kind(entry: Seq<char>) -> EntryKind {
    if entry.contains('=') {
        EntryKind::Result
    } else if contains_run(entry, "Invalid"@) {
        EntryKind::Error
    } else {
        EntryKind::Info
    }
}

/// The text of the line that shows `entry`, the entry of index `index`.
pub open spec fn numbered(index: nat, entry: Seq<char>) -> Seq<char> {
    digits(index) + ": "@ + entry
}

/// The column of a cursor that has `cursor` characters to its left, in a
/// bordered box whose left border is in column `left`. Columns end at 65535.
pub open spec fn column(left: int, cursor: int) -> int {
    if left + 1 + cursor > u16::MAX {
        u16::MAX as int
    } else {
        left + 1 + cursor
    }
}

impl FormState {
    /// The prompt that fits the state.
    pub open spec fn prompt(self) -> Prompt {
        match self.mode {
            InputMode::Normal => Prompt::Commands,
            InputMode::Editing => match self.stage() {
                Stage::AwaitingFirst => Prompt::FirstNumber,
                Stage::AwaitingSecond => Prompt::SecondNumber,
                Stage::AwaitingOperator => Prompt::Operation,
            },
        }
    }
}

/// The kind of the log entry `entry`.
pub fn classify(entry: &str) -> (kind: EntryKind)
    ensures
        kind == entry_kind(entry@),
{
    let text = chars_of(entry);
    if contains_char(&text, '=') {
        EntryKind::Result
    } else if contains(&text, &chars_of("Invalid")) {
        EntryKind::Error
    } else {
        EntryKind::Info
    }
}

impl App {
    /// The prompt that fits the state of the form.
    pub fn prompt(&self) -> (prompt: Prompt)
        ensures
            prompt == self@.prompt(),
    {
        match self.input_mode {
            InputMode::Normal => Prompt::Commands,
            InputMode::Editing => match self.stage() {
                Stage::AwaitingFirst => Prompt::FirstNumber,
                Stage::AwaitingSecond => Prompt::SecondNumber,
                Stage::AwaitingOperator => Prompt::Operation,
            },
        }
    }

    /// The log as it is shown: one line for each entry, the latest first,
    /// each with the index of its entry and its kind.
    pub fn log_lines(&self) -> (lines: Vec<LogLine>)
        ensures
            lines@.len() == self@.log.len(),
            forall|k: int|
                0 <= k < lines@.len() ==> {
                    let index = self@.log.len() - 1 - k;
                    &&& (#[trigger] lines@[k]).text@ == numbered(index as nat, self@.log[index])
                    &&& lines@[k].kind == entry_kind(self@.log[index])
                },
    {
        let count = self.messages.len();
        let mut lines: Vec<LogLine> = Vec::new();
        let mut remaining: usize = count;
        while remaining > 0
            invariant
                remaining <= count == self.messages@.len(),
                lines@.len() == count - remaining,
                forall|k: int|
                    0 <= k < lines@.len() ==> {
                        let index = count - 1 - k;
                        &&& (#[trigger] lines@[k]).text@ == numbered(
                            index as nat,
                            self.messages@[index]@,
                        )
                        &&& lines@[k].kind == entry_kind(self.messages@[index]@)
                    },
            decreases remaining,
        {
            remaining -= 1;
            let entry = self.messages[remaining].as_str();
            let mut text = String::new();
            append_natural(&mut text, remaining as u64);
            text.append(": ");
            text.append(entry);
            lines.push(LogLine { text, kind: classify(entry) });
        }
        lines
    }

    /// The column of the cursor in a bordered box whose left border is in
    /// column `left`.
    pub fn cursor_column(&self, left: u16) -> (r: u16)
        ensures
            r == column(left as int, self.character_index as int),
    {
        let offset: u16 = if self.character_index > 65535 {
            65535
        } else {
            self.character_index as u16
        };
        left.saturating_add(1).saturating_add(offset)
    }
}

} // verus!

//! The mathematical model of the form: its state as plain values, and each
//! operation as a function from state to state.

use crate::input_mode::InputMode;
use crate::numeral::{decimal, parsed};
use crate::operator::{ArithmeticError, Operator};
use crate::text::trimmed;
use vstd::prelude::*;

verus! {

/// The log entry for an accepted first number.
pub open spec fn first_entered(n: int) -> Seq<char> {
    "First number entered: "@ + decimal(n)
}

/// The log entry for an accepted second number.
pub open spec fn second_entered(n: int) -> Seq<char> {
    "Second number entered: "@ + decimal(n)
}

/// The log entry for a text that is no first number.
pub open spec fn invalid_first() -> Seq<char> {
    "Invalid input! Please enter a valid first number."@
}

/// The log entry for a text that is no second number.
pub open spec fn invalid_second() -> Seq<char> {
    "Invalid input! Please enter a valid second number."@
}

/// The log entry for a text that names no operator.
pub open spec fn invalid_operator() -> Seq<char> {
    "Invalid operator! Please enter a valid operator: '+' (plus), '-' (minus), or '/' (div)."@
}

/// The log entry for a division by zero.
pub open spec fn division_by_zero() -> Seq<char> {
    "Error: division by zero"@
}

/// The log entry for a result that does not fit in 32 bits.
pub open spec fn overflow() -> Seq<char> {
    "Error: arithmetic overflow"@
}

/// The log entry for a computed result: both operands round the operator's
/// symbol, an equals sign and the result.
pub open spec fn result_line(a: int, operator: Operator, b: int, r: int) -> Seq<char> {
    decimal(a) + " "@ + operator.symbol_text() + " "@ + decimal(b) + " = "@ + decimal(r)
}

/// The log entry that closes a computation of `operator` on `a` and `b`.
pub open spec fn outcome_line(a: i32, operator: Operator, b: i32) -> Seq<char> {
    match operator.outcome(a, b) {
        Ok(r) => result_line(a as int, operator, b as int, r as int),
        Err(ArithmeticError::DivisionByZero) => division_by_zero(),
        Err(ArithmeticError::Overflow) => overflow(),
    }
}

/// What the form waits for: the first of its three slots that is unset.
#[derive(Clone, Copy, Debug, PartialEq, Eq)]
pub enum Stage {
    /// No operand is set.
    AwaitingFirst,
    /// The first operand is set, the second is not.
    AwaitingSecond,
    /// Both operands are set.
    AwaitingOperator,
}

/// The state of the form as plain values.
pub struct FormState {
    /// The characters in the text field.
    pub input: Seq<char>,
    /// The cursor: the number of characters to its left.
    pub cursor: nat,
    /// The first operand, once entered.
    pub first: Option<i32>,
    /// The second operand, once entered.
    pub second: Option<i32>,
    /// The operator, once entered.
    pub operator: Option<Operator>,
    /// The current mode.
    pub mode: InputMode,
    /// The log entries, oldest first.
    pub log: Seq<Seq<char>>,
}

impl FormState {
    /// The state of a new form.
    pub open spec fn initial() -> FormState {
        FormState {
            input: Seq::empty(),
            cursor: 0,
            first: None,
            second: None,
            operator: None,
            mode: InputMode::Normal,
            log: Seq::empty(),
        }
    }

    /// What the form waits for.
    pub open spec fn stage(self) -> Stage {
        if self.first is None {
            Stage::AwaitingFirst
        } else if self.second is None {
            Stage::AwaitingSecond
        } else {
            Stage::AwaitingOperator
        }
    }

    /// The cursor lies inside the text or at one of its ends.
    pub open spec fn cursor_in_bounds(self) -> bool {
        self.cursor <= self.input.len()
    }

    /// The slots are filled in order and none waits to be computed: no
    /// operator is held, and a second operand only beside a first.
    pub open spec fn slots_in_order(self) -> bool {
        &&& self.operator is None
        &&& self.second is Some ==> self.first is Some
    }

    /// The invariant of the form.
    pub open spec fn wf(self) -> bool {
        self.cursor_in_bounds() && self.slots_in_order()
    }

    /// The cursor position nearest to `position` within the text.
    pub open spec fn clamp(self, position: int) -> nat {
        if position < 0 {
            0
        } else if position > self.input.len() {
            self.input.len()
        } else {
            position as nat
        }
    }

    /// The cursor moved one character to the left, unless at the start.
    pub open spec fn move_left(self) -> FormState {
        FormState { cursor: self.clamp(self.cursor - 1), ..self }
    }

    /// The cursor moved one character to the right, unless at the end.
    pub open spec fn move_right(self) -> FormState {
        FormState { cursor: self.clamp(self.cursor as int + 1), ..self }
    }

    /// The character `c` inserted at the cursor, and the cursor moved past it.
    pub open spec fn insert(self, c: char) -> FormState {
        let input = self.input.insert(self.clamp(self.cursor as int) as int, c);
        FormState { input, ..self }.move_right()
    }

    /// The character to the left of the cursor removed, and the cursor moved
    /// into its place. Nothing changes where the cursor is at the start.
    pub open spec fn delete(self) -> FormState {
        if self.cursor == 0 {
            self
        } else {
            let input = self.input.take(self.clamp(self.cursor - 1) as int) + self.input.skip(
                self.clamp(self.cursor as int) as int,
            );
            FormState { input, ..self }.move_left()
        }
    }

    /// The cursor at the start of the text.
    pub open spec fn reset_cursor(self) -> FormState {
        FormState { cursor: 0, ..self }
    }

    /// The text field emptied, with the cursor at its start.
    pub open spec fn clear_field(self) -> FormState {
        FormState { input: Seq::empty(), cursor: 0, ..self }
    }

    /// The log emptied and the three slots unset.
    pub open spec fn clear_all(self) -> FormState {
        FormState { first: None, second: None, operator: None, log: Seq::empty(), ..self }
    }

    /// The entry `text` offered to the first slot that is unset: a number
    /// for an operand, a name for the operator. An accepted entry fills the
    /// slot; a rejected one leaves the slots as they are and is reported in
    /// the log.
    pub open spec fn accept(self, text: Seq<char>) -> FormState {
        if self.first is None {
            match parsed(text) {
                Some(n) => FormState {
                    first: Some(n),
                    log: self.log.push(first_entered(n as int)),
                    ..self
                },
                None => FormState { log: self.log.push(invalid_first()), ..self },
            }
        } else if self.second is None {
            match parsed(text) {
                Some(n) => FormState {
                    second: Some(n),
                    log: self.log.push(second_entered(n as int)),
                    ..self
                },
                None => FormState { log: self.log.push(invalid_second()), ..self },
            }
        } else if self.operator is None {
            match Operator::recognized(text) {
                Some(operator) => FormState { operator: Some(operator), ..self },
                None => FormState { log: self.log.push(invalid_operator()), ..self },
            }
        } else {
            self
        }
    }

    /// Where all three slots are set: the computation recorded in the log
    /// and the slots unset again. Else nothing changes.
    pub open spec fn settle(self) -> FormState {
        match (self.first, self.second, self.operator) {
            (Some(a), Some(b), Some(operator)) => FormState {
                first: None,
                second: None,
                operator: None,
                log: self.log.push(outcome_line(a, operator, b)),
                ..self
            },
            _ => self,
        }
    }

    /// The text field submitted: its trimmed content offered to the form, a
    /// complete form computed, and the field left empty with the cursor at
    /// its start.
    pub open spec fn submit(self) -> FormState {
        self.clear_field().accept(trimmed(self.input)).settle()
    }
}

} // verus!

//! The three slots of the form: how a submitted text fills them, and what
//! is computed and recorded once they are full.

use crate::app::{texts, App};
use crate::model::{FormState, Stage};
use crate::numeral::{append_integer, fits_i32, parse_i32};
use crate::operator::{lemma_quotient_bounds, quotient, ArithmeticError, Operator};
use crate::text::trim;
use vstd::prelude::*;
use vstd::string::StringExecFns;

verus! {

impl App {
    /// The sum of `first` and `second`.
    pub fn add(first: i32, second: i32) -> (result: i32)
        requires
            fits_i32(first + second),
        ensures
            result == first + second,
    {
        first + second
    }

    /// The difference of `first` and `second`.
    pub fn subtract(first: i32, second: i32) -> (result: i32)
        requires
            fits_i32(first - second),
        ensures
            result == first - second,
    {
        first - second
    }

    /// The quotient of `first` by `second`, rounded toward zero.
    pub fn div(first: i32, second: i32) -> (result: i32)
        requires
            second != 0,
            !(first == i32::MIN && second == -1),
        ensures
            result == quotient(first as int, second as int),
    {
        proof {
            lemma_quotient_bounds(first as int, second as int);
        }
        first.checked_div(second).unwrap()
    }

    /// Computes `operator` on `first` and `second`, or says why it has no
    /// result: the divisor is zero, or the result does not fit in 32 bits.
    pub fn evaluate(operator: Operator, first: i32, second: i32) -> (r: Result<
        i32,
        ArithmeticError,
    >)
        ensures
            r == operator.outcome(first, second),
    {
        match operator {
            Operator::Plus => {
                let exact: i64 = first as i64 + second as i64;
                if -2147483648 <= exact && exact <= 2147483647 {
                    Ok(Self::add(first, second))
                } else {
                    Err(ArithmeticError::Overflow)
                }
            },
            Operator::Minus => {
                let exact: i64 = first as i64 - second as i64;
                if -2147483648 <= exact && exact <= 2147483647 {
                    Ok(Self::subtract(first, second))
                } else {
                    Err(ArithmeticError::Overflow)
                }
            },
            Operator::Divide => {
                if second == 0 {
                    Err(ArithmeticError::DivisionByZero)
                } else {
                    proof {
                        lemma_quotient_bounds(first as int, second as int);
                    }
                    if first == i32::MIN && second == -1 {
                        Err(ArithmeticError::Overflow)
                    } else {
                        Ok(Self::div(first, second))
                    }
                }
            },
        }
    }

    /// What the form waits for: the first of its three slots that is unset.
    pub fn stage(&self) -> (stage: Stage)
        ensures
            stage == self@.stage(),
    {
        if self.first_number.is_none() {
            Stage::AwaitingFirst
        } else if self.second_number.is_none() {
            Stage::AwaitingSecond
        } else {
            Stage::AwaitingOperator
        }
    }

    /// Appends `entry` to the log.
    pub fn record(&mut self, entry: String)
        ensures
            final(self)@ == (FormState { log: old(self)@.log.push(entry@), ..old(self)@ }),
    {
        self.messages.push(entry);
        assert(texts(self.messages@) =~= texts(old(self).messages@).push(entry@));
    }

    /// Offers the entry `text` to the first slot that is unset: a number for
    /// an operand, a name for the operator. An accepted entry fills the slot;
    /// a rejected one leaves the slots as they are and is reported in the
    /// log.
    pub fn accept(&mut self, text: &Vec<char>)
        ensures
            final(self)@ == old(self)@.accept(text@),
    {
        if self.first_number.is_none() {
            match parse_i32(text) {
                Some(num) => {
                    self.first_number = Some(num);
                    let mut entry = String::from_str("First number entered: ");
                    append_integer(&mut entry, num);
                    self.record(entry);
                },
                None => {
                    self.record(
                        String::from_str("Invalid input! Please enter a valid first number."),
                    );
                },
            }
        } else if self.second_number.is_none() {
            match parse_i32(text) {
                Some(num) => {
                    self.second_number = Some(num);
                    let mut entry = String::from_str("Second number entered: ");
                    append_integer(&mut entry, num);
                    self.record(entry);
                },
                None => {
                    self.record(
                        String::from_str("Invalid input! Please enter a valid second number."),
                    );
                },
            }
        } else if self.operator.is_none() {
            match Operator::parse(text) {
                Some(operator) => {
                    self.operator = Some(operator);
                },
                None => {
                    self.record(
                        String::from_str(
                            "Invalid operator! Please enter a valid operator: '+' (plus), '-' (minus), or '/' (div).",
                        ),
                    );
                },
            }
        }
    }

    /// Where all three slots are set, computes the result, records it in the
    /// log and unsets the slots. A computation without a result is recorded
    /// as an error and unsets the slots all the same.
    pub fn settle(&mut self)
        ensures
            final(self)@ == old(self)@.settle(),
    {
        if let (Some(first), Some(second), Some(operator)) = (
            self.first_number,
            self.second_number,
            self.operator,
        ) {
            let entry = match Self::evaluate(operator, first, second) {
                Ok(result) => {
                    let mut entry = String::new();
                    append_integer(&mut entry, first);
                    entry.append(" ");
                    entry.append(operator.symbol());
                    entry.append(" ");
                    append_integer(&mut entry, second);
                    entry.append(" = ");
                    append_integer(&mut entry, result);
                    entry
                },
                Err(ArithmeticError::DivisionByZero) => String::from_str(
                    "Error: division by zero",
                ),
                Err(ArithmeticError::Overflow) => String::from_str("Error: arithmetic overflow"),
            };
            self.first_number = None;
            self.second_number = None;
            self.operator = None;
            self.record(entry);
        }
    }

    /// Submits the text field: its content, without the white space round
    /// it, is offered to the first slot that is unset; a form that is then
    /// complete is computed and recorded. Whatever came of the entry, the
    /// field is left empty with the cursor at its start.
    pub fn submit_message(&mut self)
        ensures
            final(self)@ == old(self)@.submit(),
            final(self).input@.len() == 0,
            final(self).character_index == 0,
            final(self).input_mode == old(self).input_mode,
            final(self)@.log.len() >= old(self)@.log.len(),
            old(self)@.slots_in_order() ==> final(self)@.wf(),
    {
        let content = self.take_and_clear();
        let text = trim(&content);
        self.accept(&text);
        self.settle();
    }

    /// Empties the log and unsets the three slots. The text field and the
    /// mode stay as they are.
    pub fn clear_messages(&mut self)
        ensures
            final(self)@ == old(self)@.clear_all(),
            final(self).messages@.len() == 0,
            final(self).first_number is None,
            final(self).second_number is None,
            final(self).operator is None,
            final(self).input == old(self).input,
            final(self).character_index == old(self).character_index,
            final(self).input_mode == old(self).input_mode,
    {
        self.messages.clear();
        self.first_number = None;
        self.second_number = None;
        self.operator = None;
        assert(texts(self.messages@) =~= Seq::empty());
    }
}

} // verus!

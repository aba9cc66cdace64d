//! The operators of the form, and what each computes on two operands.

use crate::numeral::fits_i32;
use crate::text::lowered;
use crate::text::{equals_str, to_lower};
use vstd::prelude::*;

verus! {

/// One of the three operations that the form offers.
#[derive(Clone, Copy, Debug, PartialEq, Eq)]
pub enum Operator {
    /// Addition, written `+`.
    Plus,
    /// Subtraction, written `-`.
    Minus,
    /// Division rounded toward zero, written `/`.
    Divide,
}

/// Why a computation gave no result.
#[derive(Clone, Copy, Debug, PartialEq, Eq)]
pub enum ArithmeticError {
    /// The divisor is zero.
    DivisionByZero,
    /// The exact result does not fit in 32 bits.
    Overflow,
}

/// The quotient of `a` by `b`, rounded toward zero.
pub open spec fn quotient(a: int, b: int) -> int
    recommends
        b != 0,
{
    if a >= 0 && b > 0 {
        a / b
    } else if a >= 0 {
        -(a / (-b))
    } else if b > 0 {
        -((-a) / b)
    } else {
        (-a) / (-b)
    }
}

impl Operator {
    /// The symbol by which the operator is written in the log.
    pub open spec fn symbol_text(self) -> Seq<char> {
        match self {
            Operator::Plus => "+"@,
            Operator::Minus => "-"@,
            Operator::Divide => "/"@,
        }
    }

    /// The operator that the word `word` names, where it names one. Each
    /// operator is named by its symbol and by one word in small letters.
    pub open spec fn named(word: Seq<char>) -> Option<Operator> {
        if word == "+"@ || word == "plus"@ {
            Some(Operator::Plus)
        } else if word == "-"@ || word == "minus"@ {
            Some(Operator::Minus)
        } else if word == "/"@ || word == "div"@ {
            Some(Operator::Divide)
        } else {
            None
        }
    }

    /// The operator that `text` names when its ASCII capitals are read as
    /// small letters.
    pub open spec fn recognized(text: Seq<char>) -> Option<Operator> {
        Operator::named(lowered(text))
    }

    /// The exact mathematical result of the operator on `a` and `b`.
    pub open spec fn exact(self, a: int, b: int) -> int
        recommends
            self == Operator::Divide ==> b != 0,
    {
        match self {
            Operator::Plus => a + b,
            Operator::Minus => a - b,
            Operator::Divide => quotient(a, b),
        }
    }

    /// What computing the operator on `a` and `b` gives: the exact result
    /// where it is defined and fits in 32 bits, else the reason why not.
    pub open spec fn outcome(self, a: i32, b: i32) -> Result<i32, ArithmeticError> {
        if self == Operator::Divide && b == 0 {
            Err(ArithmeticError::DivisionByZero)
        } else if !fits_i32(self.exact(a as int, b as int)) {
            Err(ArithmeticError::Overflow)
        } else {
            Ok(self.exact(a as int, b as int) as i32)
        }
    }

    /// The symbol by which the operator is written in the log.
    pub fn symbol(self) -> (r: &'static str)
        ensures
            r@ == self.symbol_text(),
    {
        match self {
            Operator::Plus => "+",
            Operator::Minus => "-",
            Operator::Divide => "/",
        }
    }

    /// The operator that `word` names: its symbol, or its name in small
    /// letters.
    pub fn from_word(word: &Vec<char>) -> (r: Option<Operator>)
        ensures
            r == Operator::named(word@),
    {
        if equals_str(word, "+") || equals_str(word, "plus") {
            Some(Operator::Plus)
        } else if equals_str(word, "-") || equals_str(word, "minus") {
            Some(Operator::Minus)
        } else if equals_str(word, "/") || equals_str(word, "div") {
            Some(Operator::Divide)
        } else {
            None
        }
    }

    /// The operator that `text` names, whatever the case of its ASCII letters.
    pub fn parse(text: &Vec<char>) -> (r: Option<Operator>)
        ensures
            r == Operator::recognized(text@),
    {
        let word = to_lower(text);
        Operator::from_word(&word)
    }
}

/// What sets the quotient apart from every other integer: the remainder
/// that it leaves is smaller in magnitude than the divisor and never has the
/// sign opposite to the dividend's.
pub proof fn lemma_quotient_rounds_toward_zero(a: int, b: int)
    requires
        b != 0,
    ensures
        ({
            let r = a - quotient(a, b) * b;
            &&& -b < r < b || b < r < -b
            &&& a >= 0 ==> r >= 0
            &&& a <= 0 ==> r <= 0
        }),
{
    let q = quotient(a, b);
    let r = a - q * b;
    assert((-b < r < b || b < r < -b) && (a >= 0 ==> r >= 0) && (a <= 0 ==> r <= 0))
        by (nonlinear_arith)
        requires
            b != 0,
            r == a - q * b,
            q == (if a >= 0 && b > 0 {
                a / b
            } else if a >= 0 {
                -(a / (-b))
            } else if b > 0 {
                -((-a) / b)
            } else {
                (-a) / (-b)
            }),
    ;
}

/// A quotient of two 32-bit integers leaves their range only for the least
/// of them divided by minus one.
pub proof fn lemma_quotient_bounds(a: int, b: int)
    requires
        b != 0,
        fits_i32(a),
        fits_i32(b),
    ensures
        fits_i32(quotient(a, b)) <==> !(a == i32::MIN && b == -1),
        -2147483648 <= quotient(a, b) <= 2147483648,
{
    assert(-2147483648 <= quotient(a, b) <= 2147483648 && (quotient(a, b) == 2147483648 <==> (a
        == -2147483648 && b == -1))) by (nonlinear_arith)
        requires
            b != 0,
            -2147483648 <= a <= 2147483647,
            -2147483648 <= b <= 2147483647,
            quotient(a, b) == (if a >= 0 && b > 0 {
                a / b
            } else if a >= 0 {
                -(a / (-b))
            } else if b > 0 {
                -((-a) / b)
            } else {
                (-a) / (-b)
            }),
    ;
}

} // verus!

//! Laws of the form, each proved of the model in which the contracts of the
//! operations are stated.

use crate::event::{Key, KeyPhase};
use crate::input_mode::InputMode;
use crate::model::{
    division_by_zero, first_entered, invalid_first, invalid_operator, invalid_second,
    outcome_line, second_entered, FormState, Stage,
};
use crate::numeral::parsed;
use crate::operator::Operator;
use crate::text::trimmed;
use vstd::prelude::*;

verus! {

/// The state after the characters `chars` were inserted one at a time, in
/// order, starting from `s`.
pub open spec fn typed(s: FormState, chars: Seq<char>) -> FormState
    decreases chars.len(),
{
    if chars.len() == 0 {
        s
    } else {
        typed(s, chars.drop_last()).insert(chars.last())
    }
}

/// Away from the start of the text, moving the cursor left and then right
/// brings it back to where it was.
pub proof fn lemma_left_then_right(s: FormState)
    requires
        s.cursor_in_bounds(),
        s.cursor > 0,
    ensures
        s.move_left().move_right() == s,
{
}

/// Away from the end of the text, moving the cursor right and then left
/// brings it back to where it was.
pub proof fn lemma_right_then_left(s: FormState)
    requires
        s.cursor_in_bounds(),
        s.cursor < s.input.len(),
    ensures
        s.move_right().move_left() == s,
{
}

/// A cursor at the start of the text stays there when moved left, and a
/// cursor at the end stays there when moved right.
pub proof fn lemma_moves_stop_at_ends(s: FormState)
    ensures
        s.cursor == 0 ==> s.move_left() == s,
        s.cursor == s.input.len() ==> s.move_right() == s,
{
}

/// Moving the cursor never takes it out of the text, wherever it was.
pub proof fn lemma_moves_stay_in_bounds(s: FormState)
    ensures
        s.move_left().cursor_in_bounds(),
        s.move_right().cursor_in_bounds(),
        s.move_left().input == s.input,
        s.move_right().input == s.input,
{
}

/// Inserting a character makes the text one character longer and moves the
/// cursor one to the right, wherever in the text the cursor was: the new
/// character stands where the cursor was, and the rest keeps its order.
pub proof fn lemma_insert_grows(s: FormState, c: char)
    requires
        s.cursor_in_bounds(),
    ensures
        s.insert(c).input.len() == s.input.len() + 1,
        s.insert(c).cursor == s.cursor + 1,
        s.insert(c).input == s.input.insert(s.cursor as int, c),
        s.insert(c).cursor_in_bounds(),
{
}

/// Deleting with the cursor at the start of the text changes nothing.
pub proof fn lemma_delete_at_start(s: FormState)
    requires
        s.cursor == 0,
    ensures
        s.delete() == s,
{
}

/// Away from the start, deleting removes the one character to the left of
/// the cursor and moves the cursor one to the left.
pub proof fn lemma_delete_shrinks(s: FormState)
    requires
        s.cursor_in_bounds(),
        s.cursor > 0,
    ensures
        s.delete().input == s.input.remove(s.cursor - 1),
        s.delete().input.len() == s.input.len() - 1,
        s.delete().cursor == s.cursor - 1,
        s.delete().cursor_in_bounds(),
{
    assert(s.delete().input =~= s.input.remove(s.cursor - 1));
}

/// Deleting undoes an insertion.
pub proof fn lemma_insert_then_delete(s: FormState, c: char)
    requires
        s.cursor_in_bounds(),
    ensures
        s.insert(c).delete() == s,
{
    lemma_insert_grows(s, c);
    lemma_delete_shrinks(s.insert(c));
    assert(s.input.insert(s.cursor as int, c).remove(s.cursor as int) =~= s.input);
}

/// Typing a text into an empty field, one character after the other,
/// leaves exactly that text in the field, with the cursor at its end and
/// the rest of the form untouched.
pub proof fn lemma_typing_round_trip(s: FormState, chars: Seq<char>)
    requires
        s.input.len() == 0,
        s.cursor == 0,
    ensures
        typed(s, chars) == (FormState { input: chars, cursor: chars.len(), ..s }),
    decreases chars.len(),
{
    if chars.len() == 0 {
        assert(s.input =~= chars);
    } else {
        let before = typed(s, chars.drop_last());
        lemma_typing_round_trip(s, chars.drop_last());
        lemma_insert_grows(before, chars.last());
        assert(chars.drop_last().insert(chars.len() - 1, chars.last()) =~= chars);
    }
}

/// Clearing leaves an empty log and all three slots unset, whatever the
/// state was; the text field, the cursor and the mode stay.
pub proof fn lemma_clear_all(s: FormState)
    ensures
        s.clear_all().log.len() == 0,
        s.clear_all().first is None,
        s.clear_all().second is None,
        s.clear_all().operator is None,
        s.clear_all().input == s.input,
        s.clear_all().cursor == s.cursor,
        s.clear_all().mode == s.mode,
        s.clear_all().slots_in_order(),
        s.clear_all().clear_all() == s.clear_all(),
{
}

/// Resetting the cursor twice is the same as resetting it once.
pub proof fn lemma_reset_cursor_idempotent(s: FormState)
    ensures
        s.reset_cursor().reset_cursor() == s.reset_cursor(),
        s.reset_cursor().cursor == 0,
        s.reset_cursor().input == s.input,
{
}

/// Submitting always leaves the text field empty with the cursor at its
/// start, keeps the mode, and never shortens the log: it appends one entry
/// or two, or none where an operator was accepted that completes nothing.
pub proof fn lemma_submit_resets_field(s: FormState)
    ensures
        s.submit().input.len() == 0,
        s.submit().cursor == 0,
        s.submit().mode == s.mode,
        s.log.len() <= s.submit().log.len() <= s.log.len() + 2,
        s.submit().log.take(s.log.len() as int) == s.log,
{
    assert(s.submit().log.take(s.log.len() as int) =~= s.log);
}

/// Submitting a form whose slots are filled in order leaves them filled in
/// order: no operator is ever left waiting.
pub proof fn lemma_submit_keeps_order(s: FormState)
    requires
        s.slots_in_order(),
    ensures
        s.submit().wf(),
{
}

/// Every operation keeps the invariant of the form.
pub proof fn lemma_operations_preserve_wf(s: FormState, c: char)
    requires
        s.wf(),
    ensures
        s.move_left().wf(),
        s.move_right().wf(),
        s.insert(c).wf(),
        s.delete().wf(),
        s.reset_cursor().wf(),
        s.clear_field().wf(),
        s.clear_all().wf(),
        s.submit().wf(),
{
    lemma_insert_grows(s, c);
    if s.cursor > 0 {
        lemma_delete_shrinks(s);
    }
}

/// Every key in every phase keeps the invariant of the form.
pub proof fn lemma_handle_preserves_wf(s: FormState, key: Key, phase: KeyPhase)
    requires
        s.wf(),
    ensures
        s.handle(key, phase).wf(),
{
    match key {
        Key::Char(c) => {
            lemma_operations_preserve_wf(s, c);
        },
        _ => {
            lemma_operations_preserve_wf(s, ' ');
        },
    }
}

/// Submitting moves the form one stage on where the entry is accepted and
/// leaves it where it is where the entry is rejected; after the operator
/// the form starts over.
pub proof fn lemma_submit_advances(s: FormState)
    requires
        s.slots_in_order(),
    ensures
        s.stage() == Stage::AwaitingFirst ==> s.submit().stage() == (if parsed(
            trimmed(s.input),
        ) is Some {
            Stage::AwaitingSecond
        } else {
            Stage::AwaitingFirst
        }),
        s.stage() == Stage::AwaitingSecond ==> s.submit().stage() == (if parsed(
            trimmed(s.input),
        ) is Some {
            Stage::AwaitingOperator
        } else {
            Stage::AwaitingSecond
        }),
        s.stage() == Stage::AwaitingOperator ==> s.submit().stage() == (if Operator::recognized(
            trimmed(s.input),
        ) is Some {
            Stage::AwaitingFirst
        } else {
            Stage::AwaitingOperator
        }),
{
}

/// A number submitted to an empty form becomes the first operand and is
/// reported; a text that is no number is reported and leaves the form
/// waiting for its first operand. Either way the field is left empty.
pub proof fn lemma_submit_first(s: FormState)
    requires
        s.slots_in_order(),
        s.first is None,
    ensures
        match parsed(trimmed(s.input)) {
            Some(n) => s.submit() == (FormState {
                first: Some(n),
                log: s.log.push(first_entered(n as int)),
                ..s.clear_field()
            }),
            None => s.submit() == (FormState {
                log: s.log.push(invalid_first()),
                ..s.clear_field()
            }),
        },
{
}

/// With the first operand set, a number submitted becomes the second
/// operand and is reported; a text that is no number is reported and leaves
/// the form waiting for its second operand.
pub proof fn lemma_submit_second(s: FormState)
    requires
        s.slots_in_order(),
        s.first is Some,
        s.second is None,
    ensures
        match parsed(trimmed(s.input)) {
            Some(n) => s.submit() == (FormState {
                second: Some(n),
                log: s.log.push(second_entered(n as int)),
                ..s.clear_field()
            }),
            None => s.submit() == (FormState {
                log: s.log.push(invalid_second()),
                ..s.clear_field()
            }),
        },
{
}

/// With both operands set, the name of an operator completes the form: the
/// computation is recorded and all three slots are unset. A text that names
/// no operator is reported and leaves both operands in place.
pub proof fn lemma_submit_operator(s: FormState)
    requires
        s.slots_in_order(),
        s.second is Some,
    ensures
        match Operator::recognized(trimmed(s.input)) {
            Some(operator) => s.submit() == (FormState {
                first: None,
                second: None,
                log: s.log.push(outcome_line(s.first->0, operator, s.second->0)),
                ..s.clear_field()
            }),
            None => s.submit() == (FormState {
                log: s.log.push(invalid_operator()),
                ..s.clear_field()
            }),
        },
{
}

/// A division by zero is recorded as such, whatever the dividend, and the
/// form starts over.
pub proof fn lemma_division_by_zero_is_recorded(s: FormState)
    requires
        s.slots_in_order(),
        s.second == Some(0i32),
        Operator::recognized(trimmed(s.input)) == Some(Operator::Divide),
    ensures
        s.submit() == (FormState {
            first: None,
            second: None,
            log: s.log.push(division_by_zero()),
            ..s.clear_field()
        }),
{
}

/// The log only grows: whatever key arrives, the entries that were there
/// stay, in order, under those that are added. The one exception is the
/// command that clears, which leaves the log empty.
pub proof fn lemma_log_is_append_only(s: FormState, key: Key, phase: KeyPhase)
    ensures
        s.mode == InputMode::Normal && key == Key::Char('c')
            ==> s.handle(key, phase).log.len() == 0,
        !(s.mode == InputMode::Normal && key == Key::Char('c')) ==> {
            &&& s.log.len() <= s.handle(key, phase).log.len()
            &&& s.handle(key, phase).log.take(s.log.len() as int) == s.log
        },
{
    lemma_submit_resets_field(s);
    assert(s.log.take(s.log.len() as int) =~= s.log);
}

/// The slots change only when the text field is submitted or the form is
/// cleared: every other key leaves the operands, the operator and the log
/// as they are.
pub proof fn lemma_editing_keeps_slots(s: FormState, key: Key, phase: KeyPhase)
    requires
        !(s.mode == InputMode::Editing && key == Key::Enter),
        !(s.mode == InputMode::Normal && key == Key::Char('c')),
    ensures
        s.handle(key, phase).first == s.first,
        s.handle(key, phase).second == s.second,
        s.handle(key, phase).operator == s.operator,
        s.handle(key, phase).log == s.log,
{
}

/// A key that ends the program leaves the state as it is.
pub proof fn lemma_quit_changes_nothing(s: FormState, key: Key, phase: KeyPhase)
    requires
        s.quits(key),
    ensures
        s.handle(key, phase) == s,
{
}

/// In editing mode a key that is held or released does nothing.
pub proof fn lemma_editing_ignores_other_phases(s: FormState, key: Key, phase: KeyPhase)
    requires
        s.mode == InputMode::Editing,
        phase != KeyPhase::Press,
    ensures
        s.handle(key, phase) == s,
{
}

} // verus!

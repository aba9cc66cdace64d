//! The form itself, and the editing of its text field.

use crate::input_mode::InputMode;
use crate::model::FormState;
use crate::operator::Operator;
use crate::utf8::{byte_offset, lemma_offset_is_boundary, lemma_offset_step, len_utf8};
use vstd::prelude::*;
use vstd::utf8::{encode_utf8, is_char_boundary};

verus! {

/// The form: a text field with its cursor, the three slots that the field
/// fills one after the other, the mode, and the log.
#[derive(Clone, Debug)]
pub struct App {
    /// The characters in the text field.
    pub input: Vec<char>,
    /// The first operand, once entered.
    pub first_number: Option<i32>,
    /// The second operand, once entered.
    pub second_number: Option<i32>,
    /// The operator, once entered.
    pub operator: Option<Operator>,
    /// The cursor, counted in characters from the start of the text field.
    pub character_index: usize,
    /// The current mode.
    pub input_mode: InputMode,
    /// The log entries, oldest first.
    pub messages: Vec<String>,
}

/// The texts of the log entries `messages`.
pub open spec fn texts(messages: Seq<String>) -> Seq<Seq<char>> {
    Seq::new(messages.len(), |i: int| messages[i]@)
}

impl View for App {
    type V = FormState;

    open spec fn view(&self) -> FormState {
        FormState {
            input: self.input@,
            cursor: self.character_index as nat,
            first: self.first_number,
            second: self.second_number,
            operator: self.operator,
            mode: self.input_mode,
            log: texts(self.messages@),
        }
    }
}

impl Default for App {
    fn default() -> (app: App)
        ensures
            app@ == FormState::initial(),
    {
        Self::new()
    }
}

impl App {
    /// A form in normal mode with an empty text field, no slot set and an
    /// empty log.
    pub fn new() -> (app: App)
        ensures
            app@ == FormState::initial(),
            app@.wf(),
    {
        let app = Self {
            input: Vec::new(),
            first_number: None,
            second_number: None,
            operator: None,
            input_mode: InputMode::Normal,
            messages: Vec::new(),
            character_index: 0,
        };
        assert(app@.log =~= Seq::empty());
        app
    }

    /// Moves the cursor one character to the left; at the start of the text
    /// it stays.
    pub fn move_cursor_left(&mut self)
        ensures
            final(self)@ == old(self)@.move_left(),
            final(self)@.cursor_in_bounds(),
            old(self).character_index == 0 ==> final(self).character_index == 0,
    {
        let cursor_moved_left = self.character_index.saturating_sub(1);
        self.character_index = self.clamp_cursor(cursor_moved_left);
    }

    /// Moves the cursor one character to the right; at the end of the text
    /// it stays.
    pub fn move_cursor_right(&mut self)
        ensures
            final(self)@ == old(self)@.move_right(),
            final(self)@.cursor_in_bounds(),
            old(self).character_index == old(self).input@.len() ==> final(self).character_index
                == old(self).character_index,
    {
        let cursor_moved_right = self.character_index.saturating_add(1);
        assert(self.input@.len() == self.input.len() <= usize::MAX);
        self.character_index = self.clamp_cursor(cursor_moved_right);
    }

    /// Inserts `new_char` at the cursor and moves the cursor past it.
    pub fn enter_char(&mut self, new_char: char)
        ensures
            final(self)@ == old(self)@.insert(new_char),
            final(self)@.cursor_in_bounds(),
            final(self).input@.len() == old(self).input@.len() + 1,
            old(self)@.cursor_in_bounds() ==> {
                &&& final(self).character_index == old(self).character_index + 1
                &&& final(self).input@ == old(self).input@.insert(
                    old(self).character_index as int,
                    new_char,
                )
            },
    {
        let index = self.clamp_cursor(self.character_index);
        self.input.insert(index, new_char);
        self.move_cursor_right();
    }

    /// The offset of the cursor in bytes, where the text is written in
    /// UTF-8: the sum of the bytes of the characters to its left. A cursor
    /// past the end counts as at the end.
    pub fn byte_index(&self) -> (r: usize)
        requires
            encode_utf8(self.input@).len() <= usize::MAX,
        ensures
            r == byte_offset(self.input@, self@.clamp(self.character_index as int) as int),
            is_char_boundary(encode_utf8(self.input@), r as int),
    {
        let stop = self.clamp_cursor(self.character_index);
        let mut offset: usize = 0;
        let mut i: usize = 0;
        assert(self.input@.take(0) =~= Seq::<char>::empty());
        while i < stop
            invariant
                i <= stop <= self.input@.len(),
                offset == byte_offset(self.input@, i as int),
                encode_utf8(self.input@).len() <= usize::MAX,
            decreases stop - i,
        {
            proof {
                lemma_offset_step(self.input@, i as int);
            }
            offset += len_utf8(self.input[i]);
            i += 1;
        }
        proof {
            lemma_offset_is_boundary(self.input@, stop as int);
        }
        offset
    }

    /// Removes the character to the left of the cursor and moves the cursor
    /// into its place. At the start of the text nothing changes.
    pub fn delete_char(&mut self)
        ensures
            final(self)@ == old(self)@.delete(),
            old(self).character_index == 0 ==> *final(self) == *old(self),
            old(self)@.cursor_in_bounds() ==> final(self)@.cursor_in_bounds(),
            old(self)@.cursor_in_bounds() && old(self).character_index > 0 ==> {
                &&& final(self).character_index == old(self).character_index - 1
                &&& final(self).input@ == old(self).input@.remove(old(self).character_index - 1)
            },
    {
        if self.character_index != 0 {
            let current_index = self.character_index;
            let from_left_to_current_index = current_index - 1;
            if from_left_to_current_index < self.input.len() {
                self.input.remove(from_left_to_current_index);
            }
            assert(self.input@ =~= old(self).input@.take(
                old(self)@.clamp(current_index - 1) as int,
            ) + old(self).input@.skip(old(self)@.clamp(current_index as int) as int));
            self.move_cursor_left();
        }
    }

    /// The number of characters in the text field.
    pub fn character_count(&self) -> (count: usize)
        ensures
            count == self@.input.len(),
    {
        self.input.len()
    }

    /// Hands out the content of the text field and leaves the field empty,
    /// with the cursor at its start.
    pub fn take_and_clear(&mut self) -> (content: Vec<char>)
        ensures
            content@ == old(self)@.input,
            final(self)@ == old(self)@.clear_field(),
            final(self)@.cursor_in_bounds(),
    {
        let mut content: Vec<char> = Vec::new();
        std::mem::swap(&mut self.input, &mut content);
        self.reset_cursor();
        content
    }

    /// The cursor position nearest to `new_cursor_pos` within the text.
    pub fn clamp_cursor(&self, new_cursor_pos: usize) -> (r: usize)
        ensures
            r == self@.clamp(new_cursor_pos as int),
            r <= self.input@.len(),
    {
        let len = self.character_count();
        if new_cursor_pos > len {
            len
        } else {
            new_cursor_pos
        }
    }

    /// Puts the cursor at the start of the text.
    pub fn reset_cursor(&mut self)
        ensures
            final(self)@ == old(self)@.reset_cursor(),
            final(self).character_index == 0,
            final(self)@.cursor_in_bounds(),
    {
        self.character_index = 0;
    }
}

} // verus!

use bitwise_calc::App;

fn chars(s: &str) -> Vec<char> {
    s.chars().collect()
}

fn typed(s: &str) -> App {
    let mut app = App::new();
    for c in s.chars() {
        app.enter_char(c);
    }
    app
}

#[test]
fn test_reset_cursor() {
    let mut app = App::new();
    app.character_index = 3;
    app.reset_cursor();
    assert_eq!(app.character_index, 0);
}

#[test]
fn new_form_is_empty() {
    let app = App::new();
    assert!(app.input.is_empty());
    assert_eq!(app.character_index, 0);
    assert!(app.first_number.is_none());
    assert!(app.second_number.is_none());
    assert!(app.operator.is_none());
    assert_eq!(app.input_mode, bitwise_calc::InputMode::Normal);
    assert!(app.messages.is_empty());
}

#[test]
fn default_form_is_a_new_form() {
    let app = App::default();
    assert!(app.input.is_empty());
    assert_eq!(app.character_index, 0);
    assert!(app.first_number.is_none());
    assert!(app.second_number.is_none());
    assert!(app.operator.is_none());
    assert_eq!(app.input_mode, bitwise_calc::InputMode::Normal);
    assert!(app.messages.is_empty());
}

#[test]
fn reset_cursor_twice_is_reset_cursor_once() {
    let mut once = typed("hello");
    once.reset_cursor();
    let mut twice = typed("hello");
    twice.reset_cursor();
    twice.reset_cursor();
    assert_eq!(once.character_index, 0);
    assert_eq!(twice.character_index, once.character_index);
    assert_eq!(twice.input, once.input);
    assert_eq!(twice.input, chars("hello"));
}

#[test]
fn reset_cursor_keeps_the_text() {
    let mut app = typed("12 ");
    app.reset_cursor();
    assert_eq!(app.input, chars("12 "));
    assert_eq!(app.character_index, 0);
}

#[test]
fn typing_reproduces_the_text() {
    for text in ["", "5", "plus", "  -42  ", "a\u{e9}\u{4e16}\u{1f600}z", "\t x"] {
        let app = typed(text);
        assert_eq!(app.input, chars(text));
        assert_eq!(app.character_index, text.chars().count());
    }
}

#[test]
fn enter_char_adds_one_character_and_advances_the_cursor() {
    let text = "abcd";
    for position in 0..=text.len() {
        let mut app = typed(text);
        app.character_index = position;
        app.enter_char('X');
        assert_eq!(app.input.len(), 5);
        assert_eq!(app.character_index, position + 1);
        let mut expected = chars(text);
        expected.insert(position, 'X');
        assert_eq!(app.input, expected);
    }
}

#[test]
fn enter_char_counts_characters_not_bytes() {
    let mut app = typed("\u{e9}\u{4e16}\u{1f600}");
    assert_eq!(app.character_index, 3);
    app.move_cursor_left();
    app.move_cursor_left();
    app.enter_char('\u{df}');
    assert_eq!(app.input, chars("\u{e9}\u{df}\u{4e16}\u{1f600}"));
    assert_eq!(app.character_index, 2);
    app.move_cursor_right();
    app.delete_char();
    assert_eq!(app.input, chars("\u{e9}\u{df}\u{1f600}"));
    assert_eq!(app.character_index, 2);
}

#[test]
fn enter_char_with_a_cursor_past_the_end_appends() {
    let mut app = typed("ab");
    app.character_index = 9;
    app.enter_char('c');
    assert_eq!(app.input, chars("abc"));
    assert_eq!(app.character_index, 3);
}

#[test]
fn move_left_stops_at_the_start() {
    let mut app = typed("abc");
    app.reset_cursor();
    app.move_cursor_left();
    assert_eq!(app.character_index, 0);
    let mut empty = App::new();
    empty.move_cursor_left();
    assert_eq!(empty.character_index, 0);
}

#[test]
fn move_right_stops_at_the_end() {
    let mut app = typed("abc");
    assert_eq!(app.character_index, 3);
    app.move_cursor_right();
    assert_eq!(app.character_index, 3);
    let mut empty = App::new();
    empty.move_cursor_right();
    assert_eq!(empty.character_index, 0);
}

#[test]
fn move_left_then_right_returns() {
    let text = "abcde";
    for position in 1..=text.len() {
        let mut app = typed(text);
        app.character_index = position;
        app.move_cursor_left();
        assert_eq!(app.character_index, position - 1);
        app.move_cursor_right();
        assert_eq!(app.character_index, position);
        assert_eq!(app.input, chars(text));
    }
}

#[test]
fn move_right_then_left_returns() {
    let text = "abcde";
    for position in 0..text.len() {
        let mut app = typed(text);
        app.character_index = position;
        app.move_cursor_right();
        assert_eq!(app.character_index, position + 1);
        app.move_cursor_left();
        assert_eq!(app.character_index, position);
        assert_eq!(app.input, chars(text));
    }
}

#[test]
fn moves_bring_a_stray_cursor_back_into_the_text() {
    let mut app = typed("abc");
    app.character_index = 10;
    app.move_cursor_left();
    assert_eq!(app.character_index, 3);
    app.character_index = usize::MAX;
    app.move_cursor_right();
    assert_eq!(app.character_index, 3);
}

#[test]
fn delete_at_the_start_changes_nothing() {
    let mut app = typed("abc");
    app.reset_cursor();
    app.delete_char();
    assert_eq!(app.input, chars("abc"));
    assert_eq!(app.character_index, 0);
    let mut empty = App::new();
    empty.delete_char();
    assert!(empty.input.is_empty());
    assert_eq!(empty.character_index, 0);
}

#[test]
fn delete_removes_the_character_left_of_the_cursor() {
    let text = "abcd";
    for position in 1..=text.len() {
        let mut app = typed(text);
        app.character_index = position;
        app.delete_char();
        let mut expected = chars(text);
        expected.remove(position - 1);
        assert_eq!(app.input, expected);
        assert_eq!(app.character_index, position - 1);
    }
}

#[test]
fn delete_undoes_enter_char() {
    let text = "abcd";
    for position in 0..=text.len() {
        let mut app = typed(text);
        app.character_index = position;
        app.enter_char('X');
        app.delete_char();
        assert_eq!(app.input, chars(text));
        assert_eq!(app.character_index, position);
    }
}

#[test]
fn delete_with_a_cursor_past_the_end_keeps_the_text() {
    let mut app = typed("abc");
    app.character_index = 5;
    app.delete_char();
    assert_eq!(app.input, chars("abc"));
    assert_eq!(app.character_index, 3);
    app.character_index = 4;
    app.delete_char();
    assert_eq!(app.input, chars("abc"));
    assert_eq!(app.character_index, 3);
}

#[test]
fn clamp_cursor_keeps_positions_inside_the_text() {
    let app = typed("abc");
    assert_eq!(app.clamp_cursor(0), 0);
    assert_eq!(app.clamp_cursor(2), 2);
    assert_eq!(app.clamp_cursor(3), 3);
    assert_eq!(app.clamp_cursor(4), 3);
    assert_eq!(app.clamp_cursor(usize::MAX), 3);
    assert_eq!(App::new().clamp_cursor(1), 0);
}

#[test]
fn character_count_counts_characters() {
    assert_eq!(App::new().character_count(), 0);
    assert_eq!(typed("abc").character_count(), 3);
    assert_eq!(typed("\u{e9}\u{4e16}\u{1f600}").character_count(), 3);
}

#[test]
fn take_and_clear_hands_out_the_text() {
    let mut app = typed(" 12 ");
    app.move_cursor_left();
    let content = app.take_and_clear();
    assert_eq!(content, chars(" 12 "));
    assert!(app.input.is_empty());
    assert_eq!(app.character_index, 0);
    let again = app.take_and_clear();
    assert!(again.is_empty());
    assert!(app.input.is_empty());
}

#[test]
fn byte_index_is_the_offset_in_utf8() {
    let text = "a\u{e9}\u{4e16}\u{1f600}z";
    let mut app = typed(text);
    let offsets = [0usize, 1, 3, 6, 10, 11];
    for (position, offset) in offsets.iter().enumerate() {
        app.character_index = position;
        assert_eq!(app.byte_index(), *offset);
        assert!(text.is_char_boundary(app.byte_index()));
        let expected = text.char_indices().map(|(i, _)| i).nth(position).unwrap_or(text.len());
        assert_eq!(app.byte_index(), expected);
    }
    app.character_index = 99;
    assert_eq!(app.byte_index(), text.len());
    assert_eq!(App::new().byte_index(), 0);
}

#[test]
fn len_utf8_agrees_with_the_standard_library() {
    for code in 0..=0x10FFFFu32 {
        if let Some(c) = char::from_u32(code) {
            assert_eq!(bitwise_calc::utf8::len_utf8(c), c.len_utf8());
        }
    }
}

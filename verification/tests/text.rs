use bitwise_calc::numeral::{append_integer, append_natural, parse_i32};
use bitwise_calc::text::{
    chars_of, contains, contains_char, equals_str, is_whitespace, matches_at, to_lower,
    to_lower_char, trim,
};
use bitwise_calc::Operator;

fn chars(s: &str) -> Vec<char> {
    s.chars().collect()
}

fn text(v: &[char]) -> String {
    v.iter().collect()
}

const SAMPLES: [&str; 24] = [
    "", " ", "   ", "5", " 5", "5 ", "  5  ", "\t\n5\r\n", "a b", "  a  b  ", "\u{a0}x\u{3000}",
    "\u{2003}\u{2028}", "\u{200b}x\u{200b}", "-42", "+42", "PLUS", "Minus", "dIV", "\u{212a}",
    "\u{130}", "\u{3a3}", "007", "plus ", "=Invalid=",
];

#[test]
fn white_space_is_what_the_standard_library_says() {
    for code in 0..=0x10FFFFu32 {
        if let Some(c) = char::from_u32(code) {
            assert_eq!(is_whitespace(c), c.is_whitespace(), "U+{code:04X}");
        }
    }
}

#[test]
fn trim_agrees_with_the_standard_library() {
    for sample in SAMPLES {
        assert_eq!(text(&trim(&chars(sample))), sample.trim());
    }
}

#[test]
fn trim_examples() {
    assert_eq!(trim(&chars("  5  ")), chars("5"));
    assert_eq!(trim(&chars("\t a b \n")), chars("a b"));
    assert_eq!(trim(&chars("   ")), chars(""));
    assert_eq!(trim(&chars("")), chars(""));
    assert_eq!(trim(&chars("x")), chars("x"));
}

#[test]
fn lowering_folds_ascii_capitals_only() {
    assert_eq!(to_lower_char('A'), 'a');
    assert_eq!(to_lower_char('Z'), 'z');
    assert_eq!(to_lower_char('a'), 'a');
    assert_eq!(to_lower_char('@'), '@');
    assert_eq!(to_lower_char('['), '[');
    assert_eq!(to_lower_char('5'), '5');
    assert_eq!(to_lower_char('\u{c9}'), '\u{c9}');
    assert_eq!(to_lower(&chars("PlUs 1\u{c9}")), chars("plus 1\u{c9}"));
    for code in 0..=0x10FFFFu32 {
        if let Some(c) = char::from_u32(code) {
            assert_eq!(to_lower_char(c), c.to_ascii_lowercase());
        }
    }
}

#[test]
fn no_character_outside_ascii_lowers_into_an_operator_word() {
    let letters = "plusmindv+-/";
    for code in 0..=0x10FFFFu32 {
        if let Some(c) = char::from_u32(code) {
            let lowered: String = c.to_lowercase().collect();
            if lowered.chars().all(|l| letters.contains(l)) {
                assert!(c.is_ascii(), "U+{code:04X}");
                assert_eq!(lowered, to_lower_char(c).to_string());
            }
        }
    }
}

#[test]
fn operator_words_agree_with_full_lowercasing() {
    for sample in SAMPLES {
        let expected = match sample.trim().to_lowercase().as_str() {
            "+" | "plus" => Some(Operator::Plus),
            "-" | "minus" => Some(Operator::Minus),
            "/" | "div" => Some(Operator::Divide),
            _ => None,
        };
        assert_eq!(Operator::parse(&trim(&chars(sample))), expected, "{sample:?}");
    }
}

#[test]
fn operator_from_word_takes_small_letters_only() {
    assert_eq!(Operator::from_word(&chars("+")), Some(Operator::Plus));
    assert_eq!(Operator::from_word(&chars("plus")), Some(Operator::Plus));
    assert_eq!(Operator::from_word(&chars("-")), Some(Operator::Minus));
    assert_eq!(Operator::from_word(&chars("minus")), Some(Operator::Minus));
    assert_eq!(Operator::from_word(&chars("/")), Some(Operator::Divide));
    assert_eq!(Operator::from_word(&chars("div")), Some(Operator::Divide));
    assert_eq!(Operator::from_word(&chars("Plus")), None);
    assert_eq!(Operator::from_word(&chars(" plus")), None);
    assert_eq!(Operator::from_word(&chars("")), None);
    assert_eq!(Operator::parse(&chars("Plus")), Some(Operator::Plus));
    assert_eq!(Operator::parse(&chars(" plus")), None);
}

#[test]
fn parse_agrees_with_the_standard_library() {
    let samples = [
        "", "0", "-0", "+0", "5", "-5", "+5", "007", "-007", "2147483647", "2147483648",
        "-2147483648", "-2147483649", "+2147483647", "00000000000000000002147483647",
        "99999999999999999999999999999999999999", "-99999999999999999999999999999999999999",
        "+", "-", "--5", "+-5", "-+5", "5-", "5+", " 5", "5 ", "1 2", "1a", "a1", "0x1F", "1.5",
        "1e5", "1_000", "\u{661}", "\u{ff15}", "12345678901", "4294967296", "-4294967296",
        "21474836470", "214748364a", "99999999999x",
    ];
    for sample in samples {
        assert_eq!(parse_i32(&chars(sample)), sample.parse::<i32>().ok(), "{sample:?}");
    }
}

#[test]
fn parse_examples() {
    assert_eq!(parse_i32(&chars("42")), Some(42));
    assert_eq!(parse_i32(&chars("-42")), Some(-42));
    assert_eq!(parse_i32(&chars("+42")), Some(42));
    assert_eq!(parse_i32(&chars("2147483647")), Some(i32::MAX));
    assert_eq!(parse_i32(&chars("-2147483648")), Some(i32::MIN));
    assert_eq!(parse_i32(&chars("2147483648")), None);
    assert_eq!(parse_i32(&chars("abc")), None);
    assert_eq!(parse_i32(&chars("")), None);
}

#[test]
fn numerals_agree_with_the_standard_library() {
    let samples = [0, 1, -1, 9, 10, -10, 99, 100, 12345, -12345, 1000000, i32::MAX, i32::MIN];
    for n in samples {
        let mut out = String::new();
        append_integer(&mut out, n);
        assert_eq!(out, n.to_string());
        assert_eq!(parse_i32(&chars(&out)), Some(n));
    }
    for n in [0u64, 7, 10, 4096, 18446744073709551615] {
        let mut out = String::from("#");
        append_natural(&mut out, n);
        assert_eq!(out, format!("#{n}"));
    }
}

#[test]
fn numerals_are_appended() {
    let mut out = String::from("n = ");
    append_integer(&mut out, -305);
    assert_eq!(out, "n = -305");
    append_natural(&mut out, 40);
    assert_eq!(out, "n = -30540");
}

#[test]
fn chars_of_lists_the_characters() {
    assert_eq!(chars_of("a\u{e9}\u{1f600}"), vec!['a', '\u{e9}', '\u{1f600}']);
    assert_eq!(chars_of(""), Vec::<char>::new());
}

#[test]
fn equals_str_compares_all_characters() {
    assert!(equals_str(&chars("plus"), "plus"));
    assert!(!equals_str(&chars("plus"), "plu"));
    assert!(!equals_str(&chars("plu"), "plus"));
    assert!(!equals_str(&chars("plus"), "pluz"));
    assert!(equals_str(&chars(""), ""));
    assert!(!equals_str(&chars(""), "+"));
}

#[test]
fn contains_finds_runs() {
    assert!(contains(&chars("Invalid input!"), &chars("Invalid")));
    assert!(contains(&chars("An Invalid one"), &chars("Invalid")));
    assert!(contains(&chars("ends Invalid"), &chars("Invalid")));
    assert!(!contains(&chars("invalid"), &chars("Invalid")));
    assert!(!contains(&chars("Invali"), &chars("Invalid")));
    assert!(!contains(&chars("Inval id"), &chars("Invalid")));
    assert!(contains(&chars("abc"), &chars("")));
    assert!(contains(&chars(""), &chars("")));
    assert!(!contains(&chars(""), &chars("a")));
    assert!(contains(&chars("aab"), &chars("ab")));
    for sample in SAMPLES {
        for pattern in ["", " ", "5", "In", "Invalid", "=", "lus", "\u{a0}x"] {
            assert_eq!(contains(&chars(sample), &chars(pattern)), sample.contains(pattern));
        }
    }
}

#[test]
fn contains_char_finds_characters() {
    assert!(contains_char(&chars("5 + 3 = 8"), '='));
    assert!(!contains_char(&chars("5 + 3"), '='));
    assert!(!contains_char(&chars(""), '='));
    assert!(contains_char(&chars("="), '='));
}

#[test]
fn matches_at_compares_in_place() {
    assert!(matches_at(&chars("abcabc"), &chars("abc"), 0));
    assert!(matches_at(&chars("abcabc"), &chars("abc"), 3));
    assert!(!matches_at(&chars("abcabc"), &chars("abc"), 1));
    assert!(matches_at(&chars("abc"), &chars(""), 3));
}

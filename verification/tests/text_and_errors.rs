use iranta::compiler_data::position::Position;
use iranta::lexer::error::LexicalError;
use iranta::main_error::{render_error, CopySource};
use iranta::parser::error::SyntaxError;
use iranta::text::{
    append_chars, chars_of, join, push_decimal, push_integer, push_repeated, spells, split_lines,
    string_of, trim,
};

fn chars(text: &str) -> Vec<char> {
    text.chars().collect()
}

#[test]
fn strings_and_characters_convert_both_ways() {
    assert_eq!(chars_of("aé漢"), vec!['a', 'é', '漢']);
    assert_eq!(chars_of(""), Vec::<char>::new());
    assert_eq!(string_of(&vec!['a', 'é', '漢']), "aé漢");
    assert_eq!(string_of(&vec![]), "");
}

#[test]
fn spelling_is_exact() {
    assert!(spells(&chars("int8"), "int8"));
    assert!(!spells(&chars("int8"), "int16"));
    assert!(!spells(&chars("int"), "int8"));
    assert!(!spells(&chars("int8"), "int"));
    assert!(spells(&chars(""), ""));
}

#[test]
fn joining_and_appending() {
    assert_eq!(join("ab", "cd"), "abcd");
    assert_eq!(join("", ""), "");
    let mut out = chars("ab");
    append_chars(&mut out, &chars("cd"));
    assert_eq!(out, chars("abcd"));
}

#[test]
fn numbers_in_decimal() {
    let mut text = "n=".to_string();
    push_decimal(&mut text, 0);
    push_decimal(&mut text, 10);
    push_decimal(&mut text, 907);
    assert_eq!(text, "n=010907");
    let mut text = String::new();
    push_decimal(&mut text, u128::MAX);
    assert_eq!(text, "340282366920938463463374607431768211455");
    let mut text = String::new();
    push_integer(&mut text, -1);
    push_integer(&mut text, 0);
    push_integer(&mut text, i128::MIN);
    push_integer(&mut text, i128::MAX);
    assert_eq!(
        text,
        "-10-170141183460469231731687303715884105728170141183460469231731687303715884105727"
    );
}

#[test]
fn repeated_characters() {
    let mut text = "x".to_string();
    push_repeated(&mut text, '^', 3);
    push_repeated(&mut text, ' ', 0);
    assert_eq!(text, "x^^^");
}

#[test]
fn lines_are_split_at_line_endings() {
    let split = |text: &str| -> Vec<String> {
        split_lines(&chars(text)).iter().map(|line| line.iter().collect()).collect()
    };
    assert_eq!(split(""), Vec::<String>::new());
    assert_eq!(split("a"), vec!["a"]);
    assert_eq!(split("a\n"), vec!["a"]);
    assert_eq!(split("\n"), vec![""]);
    assert_eq!(split("a\n\nb"), vec!["a", "", "b"]);
    assert_eq!(split("a\r\nb\r"), vec!["a", "b\r"]);
    assert_eq!(split("a\r\r\n"), vec!["a\r"]);
    for text in ["", "a", "a\n", "\n", "a\n\nb", "a\r\nb\r", "x\ny\r\n\r\nz\n"] {
        let expected: Vec<String> = text.lines().map(|line| line.to_string()).collect();
        assert_eq!(split(text), expected);
    }
}

#[test]
fn trimming_removes_whitespace_at_both_ends() {
    assert_eq!(trim(&chars("  a b \n")), "a b");
    assert_eq!(trim(&chars("\u{a0}\ta\u{2003}")), "a");
    assert_eq!(trim(&chars("   ")), "");
    assert_eq!(trim(&chars("")), "");
    assert_eq!(trim(&chars("ab")), "ab");
}

#[test]
fn error_within_one_line_is_underlined_exactly() {
    let source = CopySource { lines: vec!["1 + @@ 2"] };
    let error = LexicalError::new(
        Position { start_line: 1, end_line: 1, start_col: 5, end_col: 6 },
        "Invalid character.".to_string(),
    );
    assert_eq!(
        render_error("Lexical Error", &error, &source),
        "Lexical Error [line 1 | column 5:6] Invalid character.\n> 1 + @@ 2\n      ^^\n"
    );
}

#[test]
fn error_at_the_end_of_input_is_underlined_behind_the_line() {
    let source = CopySource { lines: vec!["(1+2"] };
    let error = SyntaxError::new(
        Position { start_line: 1, end_line: 1, start_col: 6, end_col: 6 },
        "Expect ')'.".to_string(),
    );
    assert_eq!(
        render_error("Syntax Error", &error, &source),
        "Syntax Error [line 1 | column 6] Expect ')'.\n> (1+2\n       ^\n"
    );
}

#[test]
fn error_over_two_lines_is_underlined_on_both() {
    let source = CopySource { lines: vec!["zero", "1 + (2", "* 3)", "four"] };
    let error = SyntaxError::new(
        Position { start_line: 2, end_line: 3, start_col: 5, end_col: 4 },
        "Too long.".to_string(),
    );
    assert_eq!(
        render_error("Syntax Error", &error, &source),
        "Syntax Error [line 2:3 | column5--4] Too long.\n> 1 + (2\n      ^^\n> * 3)\n  ^^^^\n"
    );
}

#[test]
fn error_over_many_lines_elides_the_middle() {
    let source = CopySource { lines: vec!["(1", "+", "2", "+3)"] };
    let error = SyntaxError::new(
        Position { start_line: 1, end_line: 4, start_col: 1, end_col: 3 },
        "Too long.".to_string(),
    );
    assert_eq!(
        render_error("Syntax Error", &error, &source),
        "Syntax Error [line 1:4 | column1--3] Too long.\n> (1\n  ^^\n> ......\n> +3)\n  ^^^\n"
    );
}

#[test]
fn span_that_ends_before_it_starts_has_no_carets() {
    let source = CopySource { lines: vec!["abc"] };
    let error = SyntaxError::new(
        Position { start_line: 1, end_line: 1, start_col: 3, end_col: 1 },
        "Odd.".to_string(),
    );
    assert_eq!(
        render_error("Syntax Error", &error, &source),
        "Syntax Error [line 1 | column 3:1] Odd.\n> abc\n    \n"
    );
}

#[test]
fn an_excerpt_needs_its_lines() {
    let source = CopySource { lines: vec!["one", "two"] };
    let at = |start_line, end_line, start_col| Position { start_line, end_line, start_col, end_col: 1 };
    assert!(source.covers(at(1, 1, 1)));
    assert!(source.covers(at(2, 2, 9)));
    assert!(source.covers(at(1, 2, 1)));
    assert!(source.covers(at(2, 1, 1)));
    assert!(source.covers(at(2, 0, 1)));
    assert!(!source.covers(at(0, 0, 1)));
    assert!(!source.covers(at(3, 3, 1)));
    assert!(!source.covers(at(1, 3, 1)));
    assert!(!source.covers(at(1, 1, 0)));
    let empty = CopySource { lines: vec![] };
    assert!(!empty.covers(at(1, 1, 1)));
}

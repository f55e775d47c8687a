use chain_shell::lexer::{leading_empty, split, tokenize};
use chain_shell::token::Token;

fn command(name: &str) -> Token {
    Token::Command(name.to_string())
}

fn argument(value: &str) -> Token {
    Token::Argument(value.to_string())
}

fn strings(words: &[&str]) -> Vec<String> {
    words.iter().map(|w| w.to_string()).collect()
}

#[test]
fn tokenize_command_with_argument() {
    assert_eq!(tokenize("ls -la"), vec![command("ls"), argument("-la")]);
}

#[test]
fn tokenize_every_operator() {
    assert_eq!(
        tokenize("; || && ! ( )"),
        vec![
            Token::EndLine,
            Token::IfFalse,
            Token::IfTrue,
            Token::Negate,
            Token::OpenBrace,
            Token::CloseBrace,
        ]
    );
}

#[test]
fn tokenize_word_after_operator_is_command() {
    assert_eq!(
        tokenize("true && echo hi ; false"),
        vec![
            command("true"),
            Token::IfTrue,
            command("echo"),
            argument("hi"),
            Token::EndLine,
            command("false"),
        ]
    );
}

#[test]
fn tokenize_word_after_argument_is_argument() {
    assert_eq!(
        tokenize("echo a b c"),
        vec![command("echo"), argument("a"), argument("b"), argument("c")]
    );
}

#[test]
fn tokenize_operator_needs_exact_match() {
    assert_eq!(
        tokenize("a;b |||  &&&"),
        vec![command("a;b"), argument("|||"), argument(""), argument("&&&")]
    );
}

#[test]
fn tokenize_discards_leading_spaces() {
    assert_eq!(tokenize("   ls"), vec![command("ls")]);
}

#[test]
fn tokenize_keeps_inner_and_trailing_empty_fields() {
    assert_eq!(tokenize("ls  -la"), vec![command("ls"), argument(""), argument("-la")]);
    assert_eq!(tokenize("ls "), vec![command("ls"), argument("")]);
}

#[test]
fn tokenize_empty_line_keeps_one_empty_field() {
    assert_eq!(tokenize(""), vec![command("")]);
    assert_eq!(tokenize(" "), vec![command("")]);
    assert_eq!(tokenize("   "), vec![command("")]);
}

#[test]
fn tokenize_negate_then_command() {
    assert_eq!(tokenize("! true"), vec![Token::Negate, command("true")]);
}

#[test]
fn tokenize_keeps_non_ascii_words_whole() {
    assert_eq!(tokenize("écho añb ü"), vec![command("écho"), argument("añb"), argument("ü")]);
}

#[test]
fn tokenize_does_not_split_on_tabs() {
    assert_eq!(tokenize("ls\t-la"), vec![command("ls\t-la")]);
}

#[test]
fn split_gives_one_field_more_than_separators() {
    assert_eq!(split("", ' '), strings(&[""]));
    assert_eq!(split("a", ' '), strings(&["a"]));
    assert_eq!(split("a b", ' '), strings(&["a", "b"]));
    assert_eq!(split(" a  b ", ' '), strings(&["", "a", "", "b", ""]));
    assert_eq!(split("/a:/b", ':'), strings(&["/a", "/b"]));
    assert_eq!(split("::", ':'), strings(&["", "", ""]));
}

#[test]
fn leading_empty_stops_before_last_field() {
    assert_eq!(leading_empty(&strings(&["", "", "ls"])), 2);
    assert_eq!(leading_empty(&strings(&["", ""])), 1);
    assert_eq!(leading_empty(&strings(&[""])), 0);
    assert_eq!(leading_empty(&strings(&["ls", "", "x"])), 0);
    assert_eq!(leading_empty(&strings(&[])), 0);
}

#[test]
fn classify_by_previous_token() {
    assert_eq!(Token::classify("x", false), command("x"));
    assert_eq!(Token::classify("x", true), argument("x"));
    assert_eq!(Token::classify("&&", true), Token::IfTrue);
    assert_eq!(Token::classify("||", false), Token::IfFalse);
    assert!(command("x").is_word());
    assert!(argument("x").is_word());
    assert!(!Token::EndLine.is_word());
    assert_eq!(argument("x").duplicate(), argument("x"));
    assert_eq!(Token::Negate.duplicate(), Token::Negate);
}

use chain_shell::chain::{build_chain, Unit};
use chain_shell::shell::Shell;
use chain_shell::token::Token;

fn command(name: &str) -> Token {
    Token::Command(name.to_string())
}

fn argument(value: &str) -> Token {
    Token::Argument(value.to_string())
}

fn shape(units: &[Unit]) -> Vec<(Token, Vec<String>)> {
    units.iter().map(|u| (u.action().clone(), u.args().clone())).collect()
}

fn strings(words: &[&str]) -> Vec<String> {
    words.iter().map(|w| w.to_string()).collect()
}

#[test]
fn parse_ls_la_gives_one_command_unit() {
    let units = Shell::parse_input("ls -la");
    assert_eq!(units.len(), 1);
    assert_eq!(units[0].action(), &command("ls"));
    assert_eq!(units[0].args(), &strings(&["ls", "-la"]));
}

#[test]
fn parse_input_drops_the_line_end() {
    let units = Shell::parse_input("ls -la\n");
    assert_eq!(shape(&units), vec![(command("ls"), strings(&["ls", "-la"]))]);
    let units = Shell::parse_input("ls\n\n");
    assert_eq!(shape(&units), vec![(command("ls\n"), strings(&["ls\n"]))]);
}

#[test]
fn chain_keeps_the_order_of_the_line() {
    let units = Shell::parse_input("false && echo hi there ; ! true");
    assert_eq!(
        shape(&units),
        vec![
            (command("false"), strings(&["false"])),
            (Token::IfTrue, strings(&[])),
            (command("echo"), strings(&["echo", "hi", "there"])),
            (Token::EndLine, strings(&[])),
            (Token::Negate, strings(&[])),
            (command("true"), strings(&["true"])),
        ]
    );
}

#[test]
fn chain_of_operators_alone() {
    let units = build_chain(&vec![Token::Negate, Token::EndLine, Token::OpenBrace, Token::CloseBrace]);
    assert_eq!(
        shape(&units),
        vec![
            (Token::Negate, strings(&[])),
            (Token::EndLine, strings(&[])),
            (Token::OpenBrace, strings(&[])),
            (Token::CloseBrace, strings(&[])),
        ]
    );
}

#[test]
fn chain_of_nothing_is_empty() {
    assert!(build_chain(&Vec::new()).is_empty());
}

#[test]
fn chain_closes_a_command_at_the_next_command() {
    let units = build_chain(&vec![command("a"), argument("1"), command("b"), argument("2"), argument("3")]);
    assert_eq!(
        shape(&units),
        vec![(command("a"), strings(&["a", "1"])), (command("b"), strings(&["b", "2", "3"]))]
    );
}

#[test]
fn chain_drops_an_argument_without_a_command() {
    let units = build_chain(&vec![argument("x"), Token::EndLine, argument("y"), command("a"), argument("z")]);
    assert_eq!(
        shape(&units),
        vec![(Token::EndLine, strings(&[])), (command("a"), strings(&["a", "z"]))]
    );
}

#[test]
fn chain_first_argument_is_the_command_name() {
    for line in ["ls", "echo a b", "a ; b c || d", "  x  y"] {
        for unit in Shell::parse_input(line) {
            match unit.action() {
                Token::Command(name) => assert_eq!(&unit.args()[0], name),
                Token::Argument(_) => panic!("an argument is no action"),
                _ => assert!(unit.args().is_empty()),
            }
        }
    }
}

//! The lexical tokens of an input line.

use vstd::prelude::*;
use crate::text::str_eq;

verus! {

/// A token as plain values: its kind and, for a word, its characters.
pub enum TokenView {
    EndLine,
    IfFalse,
    IfTrue,
    Negate,
    OpenBrace,
    CloseBrace,
    Command(Seq<char>),
    Argument(Seq<char>),
}

impl TokenView {
    /// A command name or an argument, as opposed to an operator.
    pub open spec fn is_word(self) -> bool {
        self is Command || self is Argument
    }

    /// One of the six operators.
    pub open spec fn is_operator(self) -> bool {
        !self.is_word()
    }
}

/// One token of an input line.
#[derive(Debug, Clone, PartialEq, Eq)]
pub enum Token {
    /// `;`: separates commands.
    EndLine,
    /// `||`: run the next unit only if the last status is not 0.
    IfFalse,
    /// `&&`: run the next unit only if the last status is 0.
    IfTrue,
    /// `!`: invert the next status that is recorded.
    Negate,
    /// `(`: recognized, without effect.
    OpenBrace,
    /// `)`: recognized, without effect.
    CloseBrace,
    /// The name of a command.
    Command(String),
    /// An argument of the command before it.
    Argument(String),
}

impl View for Token {
    type V = TokenView;

    open spec fn view(&self) -> TokenView {
        match self {
            Token::EndLine => TokenView::EndLine,
            Token::IfFalse => TokenView::IfFalse,
            Token::IfTrue => TokenView::IfTrue,
            Token::Negate => TokenView::Negate,
            Token::OpenBrace => TokenView::OpenBrace,
            Token::CloseBrace => TokenView::CloseBrace,
            Token::Command(name) => TokenView::Command(name@),
            Token::Argument(value) => TokenView::Argument(value@),
        }
    }
}

impl DeepView for Token {
    type V = TokenView;

    open spec fn deep_view(&self) -> TokenView {
        self@
    }
}

/// The token that a field of the line stands for. The six operators are
/// matched exactly; any other field is an argument when the token before it
/// is a word, and a command name otherwise.
pub open spec fn spec_classify(word: Seq<char>, after_word: bool) -> TokenView {
    if word == seq![';'] {
        TokenView::EndLine
    } else if word == seq!['|', '|'] {
        TokenView::IfFalse
    } else if word == seq!['&', '&'] {
        TokenView::IfTrue
    } else if word == seq!['!'] {
        TokenView::Negate
    } else if word == seq!['('] {
        TokenView::OpenBrace
    } else if word == seq![')'] {
        TokenView::CloseBrace
    } else if after_word {
        TokenView::Argument(word)
    } else {
        TokenView::Command(word)
    }
}

impl Token {
    /// Whether the token is a command name or an argument.
    pub fn is_word(&self) -> (word: bool)
        ensures
            word == self@.is_word(),
    {
        match self {
            Token::Command(_) => true,
            Token::Argument(_) => true,
            _ => false,
        }
    }

    /// A copy of the token.
    pub fn duplicate(&self) -> (copy: Token)
        ensures
            copy@ == self@,
    {
        match self {
            Token::EndLine => Token::EndLine,
            Token::IfFalse => Token::IfFalse,
            Token::IfTrue => Token::IfTrue,
            Token::Negate => Token::Negate,
            Token::OpenBrace => Token::OpenBrace,
            Token::CloseBrace => Token::CloseBrace,
            Token::Command(name) => Token::Command(name.clone()),
            Token::Argument(value) => Token::Argument(value.clone()),
        }
    }

    /// Classifies one field of the line; `after_word` says whether the token
    /// before it is a command name or an argument.
    pub fn classify(word: &str, after_word: bool) -> (token: Token)
        ensures
            token@ == spec_classify(word@, after_word),
    {
        proof {
            reveal_strlit(";");
            reveal_strlit("||");
            reveal_strlit("&&");
            reveal_strlit("!");
            reveal_strlit("(");
            reveal_strlit(")");
            assert(";"@ =~= seq![';']);
            assert("||"@ =~= seq!['|', '|']);
            assert("&&"@ =~= seq!['&', '&']);
            assert("!"@ =~= seq!['!']);
            assert("("@ =~= seq!['(']);
            assert(")"@ =~= seq![')']);
        }
        if str_eq(word, ";") {
            Token::EndLine
        } else if str_eq(word, "||") {
            Token::IfFalse
        } else if str_eq(word, "&&") {
            Token::IfTrue
        } else if str_eq(word, "!") {
            Token::Negate
        } else if str_eq(word, "(") {
            Token::OpenBrace
        } else if str_eq(word, ")") {
            Token::CloseBrace
        } else if after_word {
            Token::Argument(word.to_owned())
        } else {
            Token::Command(word.to_owned())
        }
    }
}

} // verus!

//! The tokenizer: a line is cut at single spaces and each field is classified.

use vstd::prelude::*;
use vstd::string::*;
use crate::text::chars_of;
use crate::token::{spec_classify, Token, TokenView};

verus! {

/// The fields of `text` when it is cut at every `sep`: always one field more
/// than there are separators, so that two separators in a row, or one at
/// either end, give an empty field.
pub open spec fn spec_split(text: Seq<char>, sep: char) -> Seq<Seq<char>>
    decreases text.len(),
{
    if text.len() == 0 {
        seq![Seq::empty()]
    } else {
        let fields = spec_split(text.drop_last(), sep);
        if text.last() == sep {
            fields.push(Seq::empty())
        } else {
            fields.drop_last().push(fields.last().push(text.last()))
        }
    }
}

/// The fields without their leading empty ones, of which the last is kept
/// where nothing else is left.
pub open spec fn spec_strip(fields: Seq<Seq<char>>) -> Seq<Seq<char>>
    decreases fields.len(),
{
    if fields.len() > 1 && fields[0].len() == 0 {
        spec_strip(fields.drop_first())
    } else {
        fields
    }
}

/// The tokens of a sequence of fields: each field is classified by what it
/// holds and by the token before it.
pub open spec fn spec_tokens(fields: Seq<Seq<char>>) -> Seq<TokenView>
    decreases fields.len(),
{
    if fields.len() == 0 {
        Seq::empty()
    } else {
        let tokens = spec_tokens(fields.drop_last());
        let after_word = tokens.len() > 0 && tokens.last().is_word();
        tokens.push(spec_classify(fields.last(), after_word))
    }
}

/// The tokens of a line.
pub open spec fn spec_tokenize(line: Seq<char>) -> Seq<TokenView> {
    spec_tokens(spec_strip(spec_split(line, ' ')))
}

/// A text always splits into at least one field.
pub proof fn lemma_split_nonempty(text: Seq<char>, sep: char)
    ensures
        spec_split(text, sep).len() >= 1,
    decreases text.len(),
{
    if text.len() > 0 {
        lemma_split_nonempty(text.drop_last(), sep);
    }
}

/// Cuts `text` at every `sep`.
pub fn split(text: &str, sep: char) -> (fields: Vec<String>)
    ensures
        fields.deep_view() == spec_split(text@, sep),
{
    let chars = chars_of(text);
    let mut fields: Vec<String> = Vec::new();
    let mut start: usize = 0;
    let mut i: usize = 0;
    proof {
        assert(text@.take(0) =~= Seq::<char>::empty());
    }
    while i < chars.len()
        invariant
            start <= i <= chars.len(),
            chars@ == text@,
            spec_split(text@.take(i as int), sep) == fields.deep_view().push(
                text@.subrange(start as int, i as int),
            ),
        decreases chars.len() - i,
    {
        proof {
            assert(text@.take(i + 1).drop_last() =~= text@.take(i as int));
        }
        if chars[i] == sep {
            let field = text.substring_char(start, i).to_owned();
            fields.push(field);
            start = i + 1;
            proof {
                assert(text@.subrange(start as int, start as int) =~= Seq::<char>::empty());
            }
        } else {
            proof {
                assert(text@.subrange(start as int, i + 1) =~= text@.subrange(
                    start as int,
                    i as int,
                ).push(text@[i as int]));
            }
        }
        i += 1;
    }
    let field = text.substring_char(start, i).to_owned();
    fields.push(field);
    proof {
        assert(text@.take(i as int) =~= text@);
    }
    fields
}

/// How many leading fields the tokenizer discards: the empty ones at the
/// front, short of the last field.
pub fn leading_empty(fields: &Vec<String>) -> (count: usize)
    ensures
        count <= fields.len(),
        fields.deep_view().skip(count as int) == spec_strip(fields.deep_view()),
{
    let ghost all = fields.deep_view();
    let mut count: usize = 0;
    proof {
        assert(all.skip(0) =~= all);
    }
    while fields.len() - count > 1 && fields[count].as_str().is_empty()
        invariant
            count <= fields.len(),
            all == fields.deep_view(),
            spec_strip(all.skip(count as int)) == spec_strip(all),
        decreases fields.len() - count,
    {
        proof {
            assert(all.skip(count as int).drop_first() =~= all.skip(count + 1));
        }
        count += 1;
    }
    count
}

/// Splits a line, given without its line end, into tokens. The line is cut at
/// single spaces; leading empty fields are discarded while more than one field
/// is left; `;`, `||`, `&&`, `!`, `(` and `)` are operators, and every other
/// field is a command name, or an argument where it follows a word.
pub fn tokenize(line: &str) -> (tokens: Vec<Token>)
    ensures
        tokens.deep_view() == spec_tokenize(line@),
{
    let fields = split(line, ' ');
    let first = leading_empty(&fields);
    let ghost kept = spec_strip(spec_split(line@, ' '));
    let mut tokens: Vec<Token> = Vec::new();
    let mut after_word = false;
    let mut i: usize = first;
    while i < fields.len()
        invariant
            first <= i <= fields.len(),
            kept == fields.deep_view().skip(first as int),
            tokens.deep_view() == spec_tokens(kept.take(i - first)),
            after_word == (tokens.len() > 0 && tokens@[tokens.len() - 1]@.is_word()),
        decreases fields.len() - i,
    {
        proof {
            assert(kept.take(i - first + 1).drop_last() =~= kept.take(i - first));
        }
        let token = Token::classify(fields[i].as_str(), after_word);
        after_word = token.is_word();
        tokens.push(token);
        i += 1;
    }
    proof {
        assert(kept.take(fields.len() - first) =~= kept);
    }
    tokens
}

} // verus!

//! Small operations on text, stated over sequences of characters.

use vstd::prelude::*;
use vstd::string::*;

verus! {

/// The words of `words` written one after another with `sep` between each two.
pub open spec fn spec_join(words: Seq<Seq<char>>, sep: char) -> Seq<char>
    decreases words.len(),
{
    if words.len() == 0 {
        Seq::empty()
    } else if words.len() == 1 {
        words[0]
    } else {
        spec_join(words.drop_last(), sep).push(sep) + words.last()
    }
}

/// Whether two pieces of text hold the same characters.
pub fn str_eq(a: &str, b: &str) -> (same: bool)
    ensures
        same == (a@ == b@),
{
    a.to_owned() == b.to_owned()
}

/// The characters of `s`, in order.
pub fn chars_of(s: &str) -> (chars: Vec<char>)
    ensures
        chars@ == s@,
{
    broadcast use vstd::string::group_string_axioms;

    let mut chars: Vec<char> = Vec::new();
    for c in it: s.chars()
        invariant
            it.seq() == s@,
            chars@ == it.seq().take(it.index() as int),
    {
        chars.push(c);
    }
    chars
}

/// Whether the character `c` occurs in `s`.
pub fn contains_char(s: &str, c: char) -> (found: bool)
    ensures
        found == s@.contains(c),
{
    let chars = chars_of(s);
    let mut i: usize = 0;
    while i < chars.len()
        invariant
            i <= chars.len(),
            chars@ == s@,
            forall|j: int| 0 <= j < i ==> s@[j] != c,
        decreases chars.len() - i,
    {
        if chars[i] == c {
            return true;
        }
        i += 1;
    }
    false
}

/// The words of `words` from index `from` on, joined by single spaces.
pub fn join_from(words: &Vec<String>, from: usize) -> (text: String)
    requires
        from <= words.len(),
    ensures
        text@ == spec_join(words.deep_view().skip(from as int), ' '),
{
    let ghost all = words.deep_view();
    let mut text = String::new();
    let mut i: usize = from;
    while i < words.len()
        invariant
            from <= i <= words.len(),
            all == words.deep_view(),
            text@ == spec_join(all.subrange(from as int, i as int), ' '),
        decreases words.len() - i,
    {
        proof {
            let part = all.subrange(from as int, i + 1);
            assert(part.drop_last() =~= all.subrange(from as int, i as int));
        }
        if i > from {
            proof {
                reveal_strlit(" ");
            }
            text.append(" ");
        }
        text.append(words[i].as_str());
        i += 1;
    }
    text
}

} // verus!

//! Units: the token sequence grouped into control operators and commands.

use vstd::prelude::*;
use crate::token::{Token, TokenView};

verus! {

/// A unit as plain values.
pub struct UnitView {
    /// The operator, or the command name.
    pub action: TokenView,
    /// For a command its name followed by its arguments; empty for an operator.
    pub args: Seq<Seq<char>>,
}

impl UnitView {
    /// What holds of every unit: its action is an operator with no arguments,
    /// or a command whose argument list starts with the command's name.
    pub open spec fn wf(self) -> bool {
        match self.action {
            TokenView::Command(name) => self.args.len() >= 1 && self.args[0] == name,
            TokenView::Argument(_) => false,
            _ => self.args.len() == 0,
        }
    }

    /// The unit that a command name opens.
    pub open spec fn command(name: Seq<char>) -> UnitView {
        UnitView { action: TokenView::Command(name), args: seq![name] }
    }

    /// The unit that an operator makes.
    pub open spec fn operator(op: TokenView) -> UnitView {
        UnitView { action: op, args: Seq::empty() }
    }

    /// The unit with one more argument at its end.
    pub open spec fn with_argument(self, value: Seq<char>) -> UnitView {
        UnitView { action: self.action, args: self.args.push(value) }
    }
}

/// One step of a command chain: a control operator, or a command with its
/// argument list. Built once and never changed.
#[derive(Debug, PartialEq, Eq)]
pub struct Unit {
    action: Token,
    args: Vec<String>,
}

impl View for Unit {
    type V = UnitView;

    closed spec fn view(&self) -> UnitView {
        UnitView { action: self.action@, args: self.args.deep_view() }
    }
}

impl DeepView for Unit {
    type V = UnitView;

    open spec fn deep_view(&self) -> UnitView {
        self@
    }
}

impl Unit {
    #[verifier::type_invariant]
    spec fn well_formed(self) -> bool {
        self@.wf()
    }

    /// The unit's operator or command name.
    pub fn action(&self) -> (action: &Token)
        ensures
            action@ == self@.action,
            self@.wf(),
    {
        proof {
            use_type_invariant(self);
        }
        &self.action
    }

    /// The unit's argument list: for a command its name and then its
    /// arguments in the order of the line, for an operator nothing.
    pub fn args(&self) -> (args: &Vec<String>)
        ensures
            args.deep_view() == self@.args,
            self@.wf(),
    {
        proof {
            use_type_invariant(self);
        }
        &self.args
    }
}

/// The units of a token sequence, in the order of the line. A command name
/// opens a unit that holds the name as its first argument; an argument joins
/// the unit that the token before it belongs to, and is dropped where that is
/// no command; an operator is a unit of its own.
pub open spec fn spec_chain(tokens: Seq<TokenView>) -> Seq<UnitView>
    decreases tokens.len(),
{
    if tokens.len() == 0 {
        Seq::empty()
    } else {
        let units = spec_chain(tokens.drop_last());
        match tokens.last() {
            TokenView::Command(name) => units.push(UnitView::command(name)),
            TokenView::Argument(value) => {
                if units.len() > 0 && units.last().action is Command {
                    units.drop_last().push(units.last().with_argument(value))
                } else {
                    units
                }
            },
            op => units.push(UnitView::operator(op)),
        }
    }
}

/// The units built so far together with the command that is still open.
spec fn spec_progress(done: Seq<UnitView>, pending: Option<Seq<char>>, buffer: Seq<Seq<char>>) -> Seq<
    UnitView,
> {
    match pending {
        Some(name) => done.push(UnitView { action: TokenView::Command(name), args: buffer }),
        None => done,
    }
}

/// Groups a token sequence into units. The command that is being read is kept
/// open while its arguments come in; the next command or operator, or the end
/// of the sequence, closes it. A sequence without a command gives the operator
/// units alone, and an empty sequence gives none.
pub fn build_chain(tokens: &Vec<Token>) -> (units: Vec<Unit>)
    ensures
        units.deep_view() == spec_chain(tokens.deep_view()),
{
    let ghost toks = tokens.deep_view();
    let mut units: Vec<Unit> = Vec::new();
    let mut pending: Option<String> = None;
    let mut buffer: Vec<String> = Vec::new();
    let mut i: usize = 0;
    while i < tokens.len()
        invariant
            i <= tokens.len(),
            toks == tokens.deep_view(),
            pending matches Some(name) ==> buffer.len() >= 1 && buffer@[0]@ == name@,
            pending is None ==> buffer.len() == 0,
            pending is None && units.len() > 0 ==> !(units@[units.len() - 1]@.action is Command),
            spec_chain(toks.take(i as int)) == spec_progress(
                units.deep_view(),
                match pending {
                    Some(name) => Some(name@),
                    None => None,
                },
                buffer.deep_view(),
            ),
        decreases tokens.len() - i,
    {
        let ghost held = buffer.deep_view();
        proof {
            assert(toks.take(i + 1).drop_last() =~= toks.take(i as int));
        }
        match &tokens[i] {
            Token::Argument(value) => {
                if pending.is_some() {
                    buffer.push(value.clone());
                    proof {
                        assert(buffer.deep_view() =~= held.push(value@));
                    }
                }
            },
            Token::Command(name) => {
                if let Some(previous) = pending {
                    units.push(Unit { action: Token::Command(previous), args: buffer });
                }
                buffer = Vec::new();
                buffer.push(name.clone());
                pending = Some(name.clone());
                assert(buffer.deep_view() =~= seq![name@]);
            },
            operator => {
                if let Some(previous) = pending {
                    units.push(Unit { action: Token::Command(previous), args: buffer });
                }
                buffer = Vec::new();
                pending = None;
                assert(buffer.deep_view() =~= Seq::<Seq<char>>::empty());
                units.push(Unit { action: operator.duplicate(), args: Vec::new() });
            },
        }
        i += 1;
    }
    assert(toks.take(tokens.len() as int) =~= toks);
    if let Some(previous) = pending {
        units.push(Unit { action: Token::Command(previous), args: buffer });
    }
    units
}

} // verus!

//! What holds of the engine, the builder and the path search as a whole.

use vstd::prelude::*;
use crate::chain::{spec_chain, UnitView};
use crate::launch::PlanView;
use crate::lexer::{lemma_split_nonempty, spec_split, spec_tokens};
use crate::resolve::{spec_resolve, PathSearchView};
use crate::shell::{ShellState, StepView};
use crate::text::spec_join;
use crate::token::{spec_classify, TokenView};

verus! {

/// A set skip flag passes over the very next unit, whatever its kind, and is
/// used up by it: the unit has no other effect, and the unit after it is
/// looked at again.
pub proof fn lemma_skip_is_consumed(state: ShellState, unit: UnitView)
    requires
        state.skip_next,
    ensures
        state.step(unit).1 == StepView::Skipped,
        state.step(unit).0 == state.with_skip(false),
        !state.step(unit).0.skip_next,
{
}

/// Along any chain, with any outcomes, the skip flag is never set before two
/// units in a row on account of one setting: where it is set before a unit,
/// that unit leaves the rest of the state alone and the flag clear.
pub proof fn lemma_skip_lasts_one_unit(
    state: ShellState,
    units: Seq<UnitView>,
    outcomes: Seq<Option<i32>>,
    i: int,
)
    requires
        units.len() == outcomes.len(),
        0 <= i < units.len(),
        state.after_units(units.take(i), outcomes.take(i)).skip_next,
    ensures
        state.after_units(units.take(i + 1), outcomes.take(i + 1)) == state.after_units(
            units.take(i),
            outcomes.take(i),
        ).with_skip(false),
{
    assert(units.take(i + 1).drop_last() =~= units.take(i));
    assert(outcomes.take(i + 1).drop_last() =~= outcomes.take(i));
}

/// Only the assignment of a status uses the flip flag up: a unit that is no
/// command leaves a set flip flag set.
pub proof fn lemma_flip_persists(state: ShellState, unit: UnitView)
    requires
        state.flip_exit_status,
        !(unit.action is Command),
    ensures
        state.step(unit).0.flip_exit_status,
{
}

/// The assignment of a status uses the flip flag up, and what it records
/// under a set flag is 1 for a raw status of 0 and 0 for any other.
pub proof fn lemma_flip_is_consumed(state: ShellState, raw: i32)
    ensures
        !state.assign(raw).flip_exit_status,
        state.assign(raw).skip_next == state.skip_next,
        state.flip_exit_status ==> state.assign(raw).last_exit_status == (if raw == 0 {
            1i32
        } else {
            0i32
        }),
        !state.flip_exit_status ==> state.assign(raw).last_exit_status == raw,
{
}

/// What a child process is asked to do always ends it or replaces it: no
/// built-in returns into the shell's own course in a child.
pub proof fn lemma_child_never_returns(state: ShellState, unit: UnitView)
    ensures
        state.step(unit).1 matches StepView::InChild(plan) ==> plan.ends_process(),
{
}

/// The command `true`, taken with no flag set, asks for a child that exits
/// with status 0 and leaves the state as it is until the child is reported.
pub proof fn lemma_true_exits_zero(state: ShellState)
    requires
        !state.skip_next,
    ensures
        state.step(UnitView::command("true"@)) == (state, StepView::InChild(PlanView::Exit(0))),
{
    reveal_strlit("true");
    reveal_strlit("||");
    reveal_strlit("cd");
    reveal_strlit("exec");
    reveal_strlit("echo");
    reveal_strlit("pwd");
    reveal_strlit("lastexit");
    assert("true"@ =~= seq!['t', 'r', 'u', 'e']);
}

/// The chain that is `true` over and over, each time with the status 0 that
/// its child exits with.
pub open spec fn spec_true_chain(n: nat) -> (Seq<UnitView>, Seq<Option<i32>>) {
    (Seq::new(n, |i: int| UnitView::command("true"@)), Seq::new(n, |i: int| Some(0i32)))
}

/// Running `true` any number of times always ends with status 0 and with
/// both flags clear. This is said of a state in which no inversion is pending
/// and in which a pending skip comes after a status of 0: an inversion would
/// turn the first 0 into 1, and a skip would leave the status it found.
pub proof fn lemma_true_is_idempotent(state: ShellState, n: nat)
    requires
        !state.flip_exit_status,
        state.skip_next ==> state.last_exit_status == 0,
        n >= 1,
    ensures
        state.after_units(spec_true_chain(n).0, spec_true_chain(n).1) == ShellState::initial(),
    decreases n,
{
    let (units, outcomes) = spec_true_chain(n);
    let (units_before, outcomes_before) = spec_true_chain((n - 1) as nat);
    assert(units.drop_last() =~= units_before);
    assert(outcomes.drop_last() =~= outcomes_before);
    let before = state.after_units(units_before, outcomes_before);
    if n > 1 {
        lemma_true_is_idempotent(state, (n - 1) as nat);
    }
    if !before.skip_next {
        lemma_true_exits_zero(before);
    }
}

/// Cutting a text at a separator loses nothing: no field holds the separator,
/// and the fields joined by it are the text again.
pub proof fn lemma_split_then_join(text: Seq<char>, sep: char)
    ensures
        forall|i: int|
            0 <= i < spec_split(text, sep).len() ==> !(#[trigger] spec_split(text, sep)[i]).contains(
                sep,
            ),
        spec_join(spec_split(text, sep), sep) == text,
    decreases text.len(),
{
    let fields = spec_split(text, sep);
    if text.len() == 0 {
        assert(fields[0] =~= Seq::<char>::empty());
    } else {
        let before = spec_split(text.drop_last(), sep);
        lemma_split_then_join(text.drop_last(), sep);
        lemma_split_nonempty(text.drop_last(), sep);
        let c = text.last();
        if c == sep {
            assert(fields.drop_last() =~= before);
            assert(spec_join(fields, sep) =~= text.drop_last().push(sep));
            assert(text.drop_last().push(sep) =~= text);
        } else {
            assert forall|i: int| 0 <= i < fields.len() implies !(#[trigger] fields[i]).contains(
                sep,
            ) by {
                if i < fields.len() - 1 {
                    assert(fields[i] == before[i]);
                } else {
                    let grown = before.last().push(c);
                    assert(fields[i] == grown);
                    assert forall|j: int| 0 <= j < grown.len() implies grown[j] != sep by {
                        if j < before.last().len() {
                            assert(before.last()[j] == grown[j]);
                            assert(before.last().contains(grown[j]));
                        }
                    }
                }
            }
            if before.len() == 1 {
                assert(spec_join(fields, sep) =~= text.drop_last().push(c));
            } else {
                assert(fields.drop_last() =~= before.drop_last());
                assert(spec_join(fields, sep) =~= spec_join(before, sep).push(c));
            }
            assert(text.drop_last().push(c) =~= text);
        }
    }
}

/// There is one token for each field, and each is what its field is
/// classified as after the token before it. So an argument always follows a
/// command name or another argument, and the first token is never one.
pub proof fn lemma_tokens_follow_fields(fields: Seq<Seq<char>>)
    ensures
        spec_tokens(fields).len() == fields.len(),
        forall|i: int|
            0 <= i < fields.len() ==> #[trigger] spec_tokens(fields)[i] == spec_classify(
                fields[i],
                i > 0 && spec_tokens(fields)[i - 1].is_word(),
            ),
        forall|i: int|
            0 <= i < fields.len() && #[trigger] spec_tokens(fields)[i] is Argument ==> i > 0
                && spec_tokens(fields)[i - 1].is_word(),
    decreases fields.len(),
{
    if fields.len() > 0 {
        lemma_tokens_follow_fields(fields.drop_last());
        let before = spec_tokens(fields.drop_last());
        let tokens = spec_tokens(fields);
        assert forall|i: int| 0 <= i < fields.len() implies #[trigger] tokens[i] == spec_classify(
            fields[i],
            i > 0 && tokens[i - 1].is_word(),
        ) by {
            if i < fields.len() - 1 {
                assert(tokens[i] == before[i]);
                assert(fields.drop_last()[i] == fields[i]);
                if i > 0 {
                    assert(tokens[i - 1] == before[i - 1]);
                }
            }
        }
    }
}

/// Every unit that the builder makes is an operator without arguments or a
/// command whose argument list starts with its own name.
pub proof fn lemma_chain_is_well_formed(tokens: Seq<TokenView>)
    ensures
        forall|i: int| 0 <= i < spec_chain(tokens).len() ==> (#[trigger] spec_chain(tokens)[i]).wf(),
    decreases tokens.len(),
{
    if tokens.len() > 0 {
        lemma_chain_is_well_formed(tokens.drop_last());
        let before = spec_chain(tokens.drop_last());
        let units = spec_chain(tokens);
        assert forall|i: int| 0 <= i < units.len() implies (#[trigger] units[i]).wf() by {
            if i < before.len() - 1 {
                assert(units[i] == before[i]);
            } else if i == before.len() - 1 {
                assert(before[i].wf());
            }
        }
    }
}

/// A search that is told what the directories hold, one after the other from
/// the first on, has found what the first directory with a match holds, and
/// nothing where none has one.
pub proof fn lemma_search_finds_first_match(
    search: PathSearchView,
    listings: Seq<Option<Seq<Seq<char>>>>,
)
    requires
        search.found is None,
        search.next + listings.len() <= search.directories.len(),
    ensures
        search.inspected_all(listings).found == spec_resolve(listings, search.name),
        search.inspected_all(listings).name == search.name,
        search.inspected_all(listings).directories == search.directories,
    decreases listings.len(),
{
    if listings.len() > 0 {
        let next = search.inspected(listings[0]);
        if next.found is Some {
            lemma_search_stays_over(next, listings.drop_first());
        } else {
            lemma_search_finds_first_match(next, listings.drop_first());
        }
    }
}

/// A search that is over does not change any more.
pub proof fn lemma_search_stays_over(search: PathSearchView, listings: Seq<Option<Seq<Seq<char>>>>)
    requires
        search.is_over(),
    ensures
        search.inspected_all(listings) == search,
    decreases listings.len(),
{
    if listings.len() > 0 {
        lemma_search_stays_over(search, listings.drop_first());
    }
}

} // verus!

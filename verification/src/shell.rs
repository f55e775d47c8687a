//! The interpreter's running state and the engine that takes one unit at a time.
//!
//! The engine runs nothing itself. `Shell::parse_token` says what a unit comes
//! to; where that is a command, the caller carries the plan out and reports
//! back with `Shell::set_exit_status`, `Shell::child_waited` or `Shell::fail`.

use vstd::prelude::*;
use vstd::string::*;
use crate::chain::{build_chain, spec_chain, Unit, UnitView};
use crate::launch::{
    encodable, plan, runs_in_shell, spec_encodable, spec_plan, spec_runs_in_shell, spec_target,
    target, Plan, PlanView, ShellError,
};
use crate::lexer::{spec_tokenize, tokenize};
use crate::text::str_eq;
use crate::token::{Token, TokenView};

verus! {

/// How a child process that was waited for has ended.
#[derive(Debug, Clone, Copy, PartialEq, Eq, Structural)]
pub enum ChildStatus {
    /// It exited by itself, with this status.
    Exited(i32),
    /// Anything else: it was stopped, or ended by a signal.
    Other,
}

/// What a `Shell` holds, as plain values.
pub struct ShellState {
    /// Status of the most recently completed command.
    pub last_exit_status: i32,
    /// When set, the next status that is recorded is inverted.
    pub flip_exit_status: bool,
    /// When set, the next unit is skipped.
    pub skip_next: bool,
}

/// A step as plain values.
pub enum StepView {
    Skipped,
    Applied,
    InShell(PlanView),
    InChild(PlanView),
}

/// What a unit came to when the engine took it.
#[derive(Debug, Clone, PartialEq, Eq)]
pub enum Step {
    /// The unit was skipped and nothing but the skip flag has changed.
    Skipped,
    /// The unit was an operator; what it does to the state is done.
    Applied,
    /// The unit is a command that runs in the shell process itself: the
    /// caller carries the plan out there.
    InShell(Plan),
    /// The unit is a command that runs in a child process: the caller creates
    /// the child, which carries the plan out, and waits for it.
    InChild(Plan),
}

impl StepView {
    /// Whether the caller has outside work to do for the step and reports a
    /// status back when it is done.
    pub open spec fn awaits_report(self) -> bool {
        match self {
            StepView::InChild(_) => true,
            StepView::InShell(plan) => !(plan is Done) && !(plan is Failed),
            _ => false,
        }
    }
}

impl View for Step {
    type V = StepView;

    open spec fn view(&self) -> StepView {
        match self {
            Step::Skipped => StepView::Skipped,
            Step::Applied => StepView::Applied,
            Step::InShell(plan) => StepView::InShell(plan@),
            Step::InChild(plan) => StepView::InChild(plan@),
        }
    }
}

impl ShellState {
    /// The state a shell starts in.
    pub open spec fn initial() -> ShellState {
        ShellState { last_exit_status: 0, flip_exit_status: false, skip_next: false }
    }

    /// The state with the skip flag set to `skip`.
    pub open spec fn with_skip(self, skip: bool) -> ShellState {
        ShellState { skip_next: skip, ..self }
    }

    /// The state with the flip flag set.
    pub open spec fn with_flip(self) -> ShellState {
        ShellState { flip_exit_status: true, ..self }
    }

    /// The status that `raw` is recorded as: inverted to 0 or 1 while the flip
    /// flag is set, unchanged otherwise.
    pub open spec fn recorded_status(self, raw: i32) -> i32 {
        if self.flip_exit_status {
            if raw == 0 {
                1i32
            } else {
                0i32
            }
        } else {
            raw
        }
    }

    /// The state after the raw status of a completed command has been assigned.
    /// The flip flag is used up; the skip flag is not touched.
    pub open spec fn assign(self, raw: i32) -> ShellState {
        ShellState {
            last_exit_status: self.recorded_status(raw),
            flip_exit_status: false,
            skip_next: self.skip_next,
        }
    }

    /// The state after the wait for a child has returned: the status of a
    /// child that exited is assigned, anything else leaves the state alone.
    pub open spec fn after_wait(self, status: ChildStatus) -> ShellState {
        match status {
            ChildStatus::Exited(raw) => self.assign(raw),
            ChildStatus::Other => self,
        }
    }

    /// The state after the command `name` has been dispatched in the shell
    /// process. A plan that failed has its status assigned; `||` sets the skip
    /// flag where the last status is 0; nothing else changes the state.
    pub open spec fn after_process(self, name: Seq<char>, args: Seq<Seq<char>>) -> ShellState {
        match spec_plan(name, args, self.last_exit_status) {
            PlanView::Failed(error) => self.assign(error.spec_status()),
            _ => {
                if spec_target(name, args) == Ok::<Seq<char>, ShellError>("||"@)
                    && self.last_exit_status == 0 {
                    self.with_skip(true)
                } else {
                    self
                }
            },
        }
    }

    /// The state after a command unit has been taken, and what is to be done
    /// for it.
    pub open spec fn launch(self, name: Seq<char>, args: Seq<Seq<char>>) -> (ShellState, StepView) {
        if !spec_encodable(args) {
            (
                self.assign(ShellError::Encoding.spec_status()),
                StepView::InShell(PlanView::Failed(ShellError::Encoding)),
            )
        } else if spec_runs_in_shell(name) {
            (
                self.after_process(name, args),
                StepView::InShell(spec_plan(name, args, self.last_exit_status)),
            )
        } else {
            (self, StepView::InChild(spec_plan(name, args, self.last_exit_status)))
        }
    }

    /// The state after the engine has taken `unit`, and what the unit came to.
    /// A set skip flag is looked at first: it is cleared and the unit, of
    /// whatever kind, is passed over.
    pub open spec fn step(self, unit: UnitView) -> (ShellState, StepView) {
        if self.skip_next {
            (self.with_skip(false), StepView::Skipped)
        } else {
            match unit.action {
                TokenView::IfFalse => (self.with_skip(self.last_exit_status == 0), StepView::Applied),
                TokenView::IfTrue => (self.with_skip(self.last_exit_status != 0), StepView::Applied),
                TokenView::Negate => (self.with_flip(), StepView::Applied),
                TokenView::Command(name) => self.launch(name, unit.args),
                _ => (self, StepView::Applied),
            }
        }
    }
}

impl ShellState {
    /// The state after `unit` has been taken and the caller has reported
    /// back. `outcome` is the raw status that came back for the outside work;
    /// it is `None` where there was none to do, or where it ended without a
    /// status.
    pub open spec fn after_unit(self, unit: UnitView, outcome: Option<i32>) -> ShellState {
        let (state, step) = self.step(unit);
        match outcome {
            Some(raw) => {
                if step.awaits_report() {
                    state.assign(raw)
                } else {
                    state
                }
            },
            None => state,
        }
    }

    /// The state after a whole chain has been taken, unit by unit, with the
    /// outcome of each.
    pub open spec fn after_units(self, units: Seq<UnitView>, outcomes: Seq<Option<i32>>) -> ShellState
        decreases units.len(),
    {
        if units.len() == 0 || outcomes.len() != units.len() {
            self
        } else {
            self.after_units(units.drop_last(), outcomes.drop_last()).after_unit(
                units.last(),
                outcomes.last(),
            )
        }
    }
}

/// What the units of a line are: the line loses the line end that it may
/// close with, is split into tokens, and the tokens are grouped.
pub open spec fn spec_parse(line: Seq<char>) -> Seq<UnitView> {
    spec_chain(spec_tokenize(spec_chomp(line)))
}

/// The line without the one line end that it may close with.
pub open spec fn spec_chomp(line: Seq<char>) -> Seq<char> {
    if line.len() > 0 && line.last() == '\n' {
        line.drop_last()
    } else {
        line
    }
}

/// The prompt that is shown before a line is read, given the working
/// directory.
pub open spec fn spec_prompt(directory: Seq<char>) -> Seq<char> {
    directory + " $ "@
}

/// The interpreter's state: the last exit status and the two one-shot flags.
#[derive(Debug)]
pub struct Shell {
    last_exit_status: i32,
    flip_exit_status: bool,
    skip_next: bool,
}

impl View for Shell {
    type V = ShellState;

    closed spec fn view(&self) -> ShellState {
        ShellState {
            last_exit_status: self.last_exit_status,
            flip_exit_status: self.flip_exit_status,
            skip_next: self.skip_next,
        }
    }
}

impl Shell {
    /// A shell that has run nothing yet: status 0, no flag set.
    pub fn new() -> (shell: Shell)
        ensures
            shell@ == ShellState::initial(),
    {
        Shell { last_exit_status: 0, flip_exit_status: false, skip_next: false }
    }

    /// Records the raw status of a command that has completed. While the flip
    /// flag is set the recorded status is 1 for a raw 0 and 0 for anything
    /// else, and the flag is cleared.
    pub fn set_exit_status(&mut self, status: i32)
        ensures
            final(self)@ == old(self)@.assign(status),
    {
        if self.flip_exit_status {
            if status != 0 {
                self.last_exit_status = 0;
            } else {
                self.last_exit_status = 1;
            }
            self.flip_exit_status = false;
        } else {
            self.last_exit_status = status;
        }
    }

    /// Records the status that stands for a failure, by the same rule as any
    /// other status.
    pub fn fail(&mut self, error: ShellError)
        ensures
            final(self)@ == old(self)@.assign(error.spec_status()),
    {
        self.set_exit_status(error.status());
    }

    /// Takes note of whether the working directory could be changed as a
    /// plan asked: status 0 where it could, the failure where it could not.
    pub fn directory_changed(&mut self, changed: bool)
        ensures
            changed ==> final(self)@ == old(self)@.assign(0),
            !changed ==> final(self)@ == old(self)@.assign(ShellError::ChangeDirectory.spec_status()),
    {
        if changed {
            self.set_exit_status(0);
        } else {
            self.fail(ShellError::ChangeDirectory);
        }
    }

    /// Takes note of how the child that was waited for has ended. The status
    /// of a child that exited is recorded; a child that ended otherwise
    /// leaves the state as it is.
    pub fn child_waited(&mut self, status: ChildStatus)
        ensures
            final(self)@ == old(self)@.after_wait(status),
    {
        match status {
            ChildStatus::Exited(raw) => self.set_exit_status(raw),
            ChildStatus::Other => {},
        }
    }

    /// Dispatches the command `process` with the argument list `args` in this
    /// process and returns what is left for the caller to do. The built-ins
    /// that need no outside work are done with when this returns: `||` has set
    /// the skip flag if the last status is 0, and a failure has been recorded.
    pub fn execute_process(&mut self, process: &str, args: &Vec<String>) -> (plan: Plan)
        ensures
            plan@ == spec_plan(process@, args.deep_view(), old(self)@.last_exit_status),
            final(self)@ == old(self)@.after_process(process@, args.deep_view()),
    {
        let plan = plan(process, args, self.last_exit_status);
        match &plan {
            Plan::Failed(error) => {
                self.set_exit_status(error.status());
            },
            _ => {
                let skips = match target(process, args) {
                    Ok(found) => str_eq(found, "||"),
                    Err(_) => false,
                };
                if skips && self.last_exit_status == 0 {
                    self.skip_next = true;
                }
            },
        }
        plan
    }

    /// The prompt for a shell whose working directory is `directory`: the
    /// directory, then ` $ `.
    pub fn prompt(directory: &str) -> (text: String)
        ensures
            text@ == spec_prompt(directory@),
    {
        let mut text = directory.to_owned();
        text.append(" $ ");
        text
    }

    /// Splits a line as it was read into the units it asks for. The line end
    /// that closes the line is not part of it.
    pub fn parse_input(line: &str) -> (units: Vec<Unit>)
        ensures
            units.deep_view() == spec_parse(line@),
    {
        let length = line.unicode_len();
        let tokens = if length > 0 && line.get_char(length - 1) == '\n' {
            tokenize(line.substring_char(0, length - 1))
        } else {
            tokenize(line)
        };
        build_chain(&tokens)
    }

    /// Takes the next unit of a chain. A set skip flag is cleared and the unit
    /// passed over, whatever it is. Otherwise `;` and the group tokens do
    /// nothing, `||` and `&&` set the skip flag from the last status, `!` sets
    /// the flip flag, and a command is dispatched: in this process where it is
    /// `cd`, `exec` or `||`, for a child process otherwise. A command with a
    /// NUL in its name or arguments is not dispatched but fails.
    pub fn parse_token(&mut self, unit: &Unit) -> (step: Step)
        ensures
            final(self)@ == old(self)@.step(unit@).0,
            step@ == old(self)@.step(unit@).1,
    {
        if self.skip_next {
            self.skip_next = false;
            return Step::Skipped;
        }
        match unit.action() {
            Token::IfFalse => {
                self.skip_next = self.last_exit_status == 0;
                Step::Applied
            },
            Token::IfTrue => {
                self.skip_next = self.last_exit_status != 0;
                Step::Applied
            },
            Token::Negate => {
                self.flip_exit_status = true;
                Step::Applied
            },
            Token::Command(name) => {
                let args = unit.args();
                if !encodable(args) {
                    self.set_exit_status(ShellError::Encoding.status());
                    Step::InShell(Plan::Failed(ShellError::Encoding))
                } else if runs_in_shell(name.as_str()) {
                    Step::InShell(self.execute_process(name.as_str(), args))
                } else {
                    Step::InChild(plan(name.as_str(), args, self.last_exit_status))
                }
            },
            _ => Step::Applied,
        }
    }

    /// The status of the most recently completed command.
    pub fn last_exit_status(&self) -> (status: i32)
        ensures
            status == self@.last_exit_status,
    {
        self.last_exit_status
    }

    /// Whether the next status that is recorded will be inverted.
    pub fn flip_exit_status(&self) -> (flip: bool)
        ensures
            flip == self@.flip_exit_status,
    {
        self.flip_exit_status
    }

    /// Whether the next unit will be skipped.
    pub fn skip_next(&self) -> (skip: bool)
        ensures
            skip == self@.skip_next,
    {
        self.skip_next
    }
}

} // verus!

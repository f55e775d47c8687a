//! What running a command comes to: the built-in commands, the re-dispatch of
//! `exec`, and the hand-over of everything else to an external program.
//!
//! Nothing is run here. A `Plan` says what the caller has to do, and in which
//! process; a `ShellError` says what went wrong and which status stands for it.

use vstd::prelude::*;
use crate::text::{contains_char, join_from, spec_join, str_eq};

verus! {

/// The status recorded for a command that could not be found or started.
pub const STATUS_NOT_FOUND: i32 = 127;

/// The status recorded for every other failure.
pub const STATUS_FAILURE: i32 = 1;

/// A failure that belongs to one unit. It ends up in the recorded status and
/// never stops the interpreter.
#[derive(Debug, Clone, Copy, PartialEq, Eq, Structural)]
pub enum ShellError {
    /// A built-in was given a number of arguments it cannot act on.
    ArgumentCount,
    /// No command by that name could be found to run.
    CommandNotFound,
    /// The working directory could not be changed.
    ChangeDirectory,
    /// The process image could not be replaced.
    ReplaceImage,
    /// A command name or an argument holds a NUL and cannot be handed to the system.
    Encoding,
}

impl ShellError {
    /// The exit status that stands for the failure.
    pub open spec fn spec_status(self) -> i32 {
        match self {
            ShellError::CommandNotFound => STATUS_NOT_FOUND,
            ShellError::ReplaceImage => STATUS_NOT_FOUND,
            ShellError::ArgumentCount => STATUS_FAILURE,
            ShellError::ChangeDirectory => STATUS_FAILURE,
            ShellError::Encoding => STATUS_FAILURE,
        }
    }

    /// Whether the failure is the user's (a wrong invocation, an unknown
    /// command) rather than the system's.
    pub open spec fn spec_is_user_error(self) -> bool {
        self == ShellError::ArgumentCount || self == ShellError::CommandNotFound
    }

    /// The exit status that stands for the failure: 127 where no program
    /// could be found or started, 1 otherwise.
    pub fn status(&self) -> (status: i32)
        ensures
            status == self.spec_status(),
            status != 0,
    {
        match self {
            ShellError::CommandNotFound => STATUS_NOT_FOUND,
            ShellError::ReplaceImage => STATUS_NOT_FOUND,
            ShellError::ArgumentCount => STATUS_FAILURE,
            ShellError::ChangeDirectory => STATUS_FAILURE,
            ShellError::Encoding => STATUS_FAILURE,
        }
    }

    /// Whether the failure is the user's rather than the system's.
    pub fn is_user_error(&self) -> (user: bool)
        ensures
            user == self.spec_is_user_error(),
    {
        match self {
            ShellError::ArgumentCount => true,
            ShellError::CommandNotFound => true,
            _ => false,
        }
    }
}

/// A plan as plain values.
pub enum PlanView {
    Done,
    Failed(ShellError),
    ChangeDirectory(Seq<char>),
    Print(Seq<char>),
    PrintWorkingDirectory,
    PrintStatus(i32),
    Exit(i32),
    Run { program: Seq<char>, search: bool },
}

impl PlanView {
    /// Whether carrying the plan out ends the process that does so, or
    /// replaces it.
    pub open spec fn ends_process(self) -> bool {
        self is Print || self is PrintWorkingDirectory || self is PrintStatus || self is Exit
            || self is Run
    }

    /// The status with which the process that carries the plan out exits by
    /// itself: 0 after writing, and the status named by `Exit`.
    pub open spec fn exit_status(self) -> Option<i32> {
        match self {
            PlanView::Print(_) => Some(0i32),
            PlanView::PrintWorkingDirectory => Some(0i32),
            PlanView::PrintStatus(_) => Some(0i32),
            PlanView::Exit(status) => Some(status),
            _ => None,
        }
    }
}

/// What is left to do for a command once the shell has decided on it.
///
/// `Print`, `PrintWorkingDirectory`, `PrintStatus` and `Exit` end the process
/// that carries them out; `Run` replaces it.
#[derive(Debug, Clone, PartialEq, Eq)]
pub enum Plan {
    /// Nothing.
    Done,
    /// Nothing is run; the failure has been recorded and may be reported.
    Failed(ShellError),
    /// Change the working directory to this path.
    ChangeDirectory(String),
    /// Write the text and a line end, then exit with status 0.
    Print(String),
    /// Write the working directory and a line end, then exit with status 0.
    PrintWorkingDirectory,
    /// Write this status and a line end, then exit with status 0.
    PrintStatus(i32),
    /// Exit with this status.
    Exit(i32),
    /// Replace the process image with `program`, handing it the unit's
    /// arguments. With `search` the program is first looked up on the search
    /// path; without, the name is the path.
    Run { program: String, search: bool },
}

impl View for Plan {
    type V = PlanView;

    open spec fn view(&self) -> PlanView {
        match self {
            Plan::Done => PlanView::Done,
            Plan::Failed(error) => PlanView::Failed(*error),
            Plan::ChangeDirectory(path) => PlanView::ChangeDirectory(path@),
            Plan::Print(text) => PlanView::Print(text@),
            Plan::PrintWorkingDirectory => PlanView::PrintWorkingDirectory,
            Plan::PrintStatus(status) => PlanView::PrintStatus(*status),
            Plan::Exit(status) => PlanView::Exit(*status),
            Plan::Run { program, search } => PlanView::Run { program: program@, search: *search },
        }
    }
}

impl Plan {
    /// The status with which the process that carries the plan out exits by
    /// itself, or `None` where the plan does not end in an exit.
    pub fn exit_status(&self) -> (status: Option<i32>)
        ensures
            status == self@.exit_status(),
    {
        match self {
            Plan::Print(_) => Some(0),
            Plan::PrintWorkingDirectory => Some(0),
            Plan::PrintStatus(_) => Some(0),
            Plan::Exit(status) => Some(*status),
            _ => None,
        }
    }
}

/// Whether a command by this name has to run in the shell process itself,
/// because it changes the shell's own state or must not take a process of its own.
pub open spec fn spec_runs_in_shell(name: Seq<char>) -> bool {
    name == "||"@ || name == "cd"@ || name == "exec"@
}

/// The name that is dispatched in the end. `exec` hands over to its first
/// argument and leaves the argument list as it is, so an `exec` whose first
/// argument is `exec` again never arrives at a command.
pub open spec fn spec_target(name: Seq<char>, args: Seq<Seq<char>>) -> Result<Seq<char>, ShellError> {
    if name != "exec"@ {
        Ok(name)
    } else if args.len() < 2 {
        Err(ShellError::ArgumentCount)
    } else if args[1] == "exec"@ {
        Err(ShellError::CommandNotFound)
    } else {
        Ok(args[1])
    }
}

/// What `echo` writes: the arguments after the first, joined by single spaces.
pub open spec fn spec_echo_text(args: Seq<Seq<char>>) -> Seq<char> {
    if args.len() <= 1 {
        Seq::empty()
    } else {
        spec_join(args.skip(1), ' ')
    }
}

/// The plan of `cd`: nothing without a directory, a change of directory with
/// exactly one, a failure with more.
pub open spec fn spec_cd(args: Seq<Seq<char>>) -> PlanView {
    if args.len() <= 1 {
        PlanView::Done
    } else if args.len() == 2 {
        PlanView::ChangeDirectory(args[1])
    } else {
        PlanView::Failed(ShellError::ArgumentCount)
    }
}

/// The plan for a name that is not `exec`.
pub open spec fn spec_dispatch(name: Seq<char>, args: Seq<Seq<char>>, last_exit_status: i32) -> PlanView {
    if name == "||"@ {
        PlanView::Done
    } else if name == "cd"@ {
        spec_cd(args)
    } else if name == "echo"@ {
        PlanView::Print(spec_echo_text(args))
    } else if name == "pwd"@ {
        PlanView::PrintWorkingDirectory
    } else if name == "lastexit"@ {
        PlanView::PrintStatus(last_exit_status)
    } else if name == "true"@ {
        PlanView::Exit(0)
    } else if name == "false"@ {
        PlanView::Exit(1)
    } else {
        PlanView::Run { program: name, search: !name.contains('/') }
    }
}

/// The plan for the command `name` with the argument list `args`, in a shell
/// whose last recorded status is `last_exit_status`.
pub open spec fn spec_plan(name: Seq<char>, args: Seq<Seq<char>>, last_exit_status: i32) -> PlanView {
    match spec_target(name, args) {
        Ok(target) => spec_dispatch(target, args, last_exit_status),
        Err(error) => PlanView::Failed(error),
    }
}

/// Whether a command by this name runs in the shell process itself: `cd`,
/// `exec` and `||` do, everything else gets a child process.
pub fn runs_in_shell(name: &str) -> (in_shell: bool)
    ensures
        in_shell == spec_runs_in_shell(name@),
{
    str_eq(name, "||") || str_eq(name, "cd") || str_eq(name, "exec")
}

/// The plan of `cd` for the argument list `args`, whose first entry is the
/// name under which the command was called.
pub fn plan_cd(args: &Vec<String>) -> (plan: Plan)
    ensures
        plan@ == spec_cd(args.deep_view()),
{
    if args.len() <= 1 {
        Plan::Done
    } else if args.len() == 2 {
        Plan::ChangeDirectory(args[1].clone())
    } else {
        Plan::Failed(ShellError::ArgumentCount)
    }
}

/// What `echo` writes for the argument list `args`.
pub fn echo_text(args: &Vec<String>) -> (text: String)
    ensures
        text@ == spec_echo_text(args.deep_view()),
{
    if args.len() <= 1 {
        String::new()
    } else {
        join_from(args, 1)
    }
}

/// The plan for a name that is not `exec`.
pub fn dispatch(name: &str, args: &Vec<String>, last_exit_status: i32) -> (plan: Plan)
    ensures
        plan@ == spec_dispatch(name@, args.deep_view(), last_exit_status),
{
    if str_eq(name, "||") {
        Plan::Done
    } else if str_eq(name, "cd") {
        plan_cd(args)
    } else if str_eq(name, "echo") {
        Plan::Print(echo_text(args))
    } else if str_eq(name, "pwd") {
        Plan::PrintWorkingDirectory
    } else if str_eq(name, "lastexit") {
        Plan::PrintStatus(last_exit_status)
    } else if str_eq(name, "true") {
        Plan::Exit(0)
    } else if str_eq(name, "false") {
        Plan::Exit(1)
    } else {
        Plan::Run { program: name.to_owned(), search: !contains_char(name, '/') }
    }
}

/// Whether every entry of `args` can be handed to the system as it is: none
/// of them holds a NUL.
pub open spec fn spec_encodable(args: Seq<Seq<char>>) -> bool {
    forall|i: int| 0 <= i < args.len() ==> !(#[trigger] args[i]).contains('\0')
}

/// Whether every entry of `args` can be handed to the system as it is.
pub fn encodable(args: &Vec<String>) -> (ok: bool)
    ensures
        ok == spec_encodable(args.deep_view()),
{
    let ghost all = args.deep_view();
    let mut i: usize = 0;
    while i < args.len()
        invariant
            i <= args.len(),
            all == args.deep_view(),
            forall|j: int| 0 <= j < i ==> !(#[trigger] all[j]).contains('\0'),
        decreases args.len() - i,
    {
        if contains_char(args[i].as_str(), '\0') {
            assert(all[i as int].contains('\0'));
            return false;
        }
        i += 1;
    }
    true
}

/// The name that is dispatched in the end: `name` itself, or for `exec` its
/// first argument. An `exec` without an argument fails on the argument count,
/// and one that hands over to `exec` again finds no command.
pub fn target<'a>(name: &'a str, args: &'a Vec<String>) -> (target: Result<&'a str, ShellError>)
    ensures
        match target {
            Ok(found) => spec_target(name@, args.deep_view()) == Ok::<Seq<char>, ShellError>(found@),
            Err(error) => spec_target(name@, args.deep_view()) == Err::<Seq<char>, ShellError>(error),
        },
{
    if !str_eq(name, "exec") {
        Ok(name)
    } else if args.len() < 2 {
        Err(ShellError::ArgumentCount)
    } else if str_eq(args[1].as_str(), "exec") {
        Err(ShellError::CommandNotFound)
    } else {
        Ok(args[1].as_str())
    }
}

/// The plan for the command `name` with the argument list `args`: `exec` is
/// followed to the command it hands over to, which is then dispatched with
/// the argument list unchanged.
pub fn plan(name: &str, args: &Vec<String>, last_exit_status: i32) -> (plan: Plan)
    ensures
        plan@ == spec_plan(name@, args.deep_view(), last_exit_status),
{
    match target(name, args) {
        Ok(found) => dispatch(found, args, last_exit_status),
        Err(error) => Plan::Failed(error),
    }
}

} // verus!

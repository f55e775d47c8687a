use chain_shell::launch::{Plan, ShellError};
use chain_shell::shell::{ChildStatus, Shell, Step};

/// Stands in for the system: what was written, and where the shell is.
struct World {
    output: Vec<String>,
    directory: String,
}

impl World {
    fn new() -> World {
        World { output: Vec::new(), directory: "/".to_string() }
    }

    /// What a child does with its plan, and the status it exits with.
    fn child(&mut self, plan: Plan) -> i32 {
        match plan {
            Plan::Print(text) => {
                self.output.push(text);
                0
            }
            Plan::PrintWorkingDirectory => {
                self.output.push(self.directory.clone());
                0
            }
            Plan::PrintStatus(status) => {
                self.output.push(format!("{}", status));
                0
            }
            Plan::Exit(status) => status,
            // nothing by that name is installed in this world
            Plan::Run { .. } => ShellError::CommandNotFound.status(),
            other => panic!("no plan for a child: {:?}", other),
        }
    }

    fn run(&mut self, shell: &mut Shell, line: &str) {
        for unit in Shell::parse_input(line) {
            match shell.parse_token(&unit) {
                Step::Skipped | Step::Applied => {}
                Step::InChild(plan) => {
                    let status = self.child(plan);
                    shell.child_waited(ChildStatus::Exited(status));
                }
                Step::InShell(Plan::ChangeDirectory(path)) => {
                    self.directory = path;
                    shell.directory_changed(true);
                }
                Step::InShell(Plan::Done) | Step::InShell(Plan::Failed(_)) => {}
                Step::InShell(other) => panic!("the shell would end: {:?}", other),
            }
        }
    }
}

fn state(shell: &Shell) -> (i32, bool, bool) {
    (shell.last_exit_status(), shell.flip_exit_status(), shell.skip_next())
}

#[test]
fn true_and_echo_runs_echo() {
    let (mut shell, mut world) = (Shell::new(), World::new());
    world.run(&mut shell, "true && echo hi");
    assert_eq!(world.output, vec!["hi".to_string()]);
    assert_eq!(state(&shell), (0, false, false));
}

#[test]
fn false_and_echo_skips_echo() {
    let (mut shell, mut world) = (Shell::new(), World::new());
    world.run(&mut shell, "false && echo hi");
    assert!(world.output.is_empty());
    assert_eq!(state(&shell), (1, false, false));
}

#[test]
fn true_or_echo_skips_echo() {
    let (mut shell, mut world) = (Shell::new(), World::new());
    world.run(&mut shell, "true || echo hi");
    assert!(world.output.is_empty());
    assert_eq!(state(&shell), (0, false, false));
}

#[test]
fn false_or_echo_runs_echo() {
    let (mut shell, mut world) = (Shell::new(), World::new());
    world.run(&mut shell, "false || echo hi");
    assert_eq!(world.output, vec!["hi".to_string()]);
    assert_eq!(state(&shell), (0, false, false));
}

#[test]
fn negated_true_records_one() {
    let (mut shell, mut world) = (Shell::new(), World::new());
    world.run(&mut shell, "! true");
    assert_eq!(state(&shell), (1, false, false));
    world.run(&mut shell, "! false");
    assert_eq!(state(&shell), (0, false, false));
}

#[test]
fn cd_tmp_changes_directory() {
    let (mut shell, mut world) = (Shell::new(), World::new());
    shell.set_exit_status(9);
    world.run(&mut shell, "cd /tmp");
    assert_eq!(world.directory, "/tmp");
    assert_eq!(state(&shell), (0, false, false));
    world.run(&mut shell, "pwd");
    assert_eq!(world.output, vec!["/tmp".to_string()]);
}

#[test]
fn cd_with_two_arguments_fails() {
    let (mut shell, mut world) = (Shell::new(), World::new());
    world.run(&mut shell, "cd /tmp");
    world.run(&mut shell, "cd a b");
    assert_eq!(world.directory, "/tmp");
    assert_eq!(state(&shell), (1, false, false));
}

#[test]
fn true_again_and_again() {
    let (mut shell, mut world) = (Shell::new(), World::new());
    for _ in 0..25 {
        world.run(&mut shell, "true");
        assert_eq!(state(&shell), (0, false, false));
    }
    world.run(&mut shell, "false");
    for _ in 0..3 {
        world.run(&mut shell, "true");
        assert_eq!(state(&shell), (0, false, false));
    }
    assert!(world.output.is_empty());
}

#[test]
fn lastexit_prints_the_recorded_status() {
    let (mut shell, mut world) = (Shell::new(), World::new());
    world.run(&mut shell, "false ; lastexit");
    assert_eq!(world.output, vec!["1".to_string()]);
    assert_eq!(state(&shell), (0, false, false));
}

#[test]
fn unknown_command_records_not_found() {
    let (mut shell, mut world) = (Shell::new(), World::new());
    world.run(&mut shell, "no-such-command");
    assert_eq!(state(&shell), (127, false, false));
    world.run(&mut shell, "no-such-command || echo fallback");
    assert_eq!(world.output, vec!["fallback".to_string()]);
}

#[test]
fn operator_after_a_skipped_unit_is_skipped_too() {
    // `||` skips `echo a`; nothing is set any more when `&&` comes, which
    // then looks at the status of `true`
    let (mut shell, mut world) = (Shell::new(), World::new());
    world.run(&mut shell, "true || echo a && echo b");
    assert_eq!(world.output, vec!["b".to_string()]);

    // `&&` skips `||`, which therefore never takes effect, and `echo b` runs
    let (mut shell, mut world) = (Shell::new(), World::new());
    world.run(&mut shell, "false && || echo b");
    assert_eq!(world.output, vec!["b".to_string()]);
}

#[test]
fn negation_waits_over_a_separator() {
    let (mut shell, mut world) = (Shell::new(), World::new());
    world.run(&mut shell, "! ; ; true");
    assert_eq!(state(&shell), (1, false, false));
}

#[test]
fn empty_line_asks_for_the_empty_command() {
    let mut shell = Shell::new();
    let units = Shell::parse_input("\n");
    assert_eq!(units.len(), 1);
    assert_eq!(
        shell.parse_token(&units[0]),
        Step::InChild(Plan::Run { program: String::new(), search: true })
    );
}

use ctp::command::{exec, CommandEvent, CommandRun, ExecError, RunAction};
use ctp::config::{CommandVariants, ConfigEntry, ConfigValue};

#[test]
fn test_command() {
    let exec_output = exec("", "", "");
    match exec_output {
        Ok(_) => panic!("Expected error."),
        Err(e) => assert_eq!(e.to_string(), "Cannot execute empty command."),
    }
}

#[test]
fn whitespace_only_command_is_empty() {
    for line in [" ", " \t\n\r ", "\u{c}"] {
        assert!(matches!(exec(line, "demo", "./demo"), Err(ExecError::EmptyCommand)));
    }
}

#[test]
fn command_that_becomes_empty_after_substitution() {
    assert!(matches!(exec("{{__NAME__}}", "  ", "./out"), Err(ExecError::EmptyCommand)));
}

#[test]
fn command_is_split_into_program_and_arguments() {
    let inv = exec("  cargo  new\t{{__NAME__}} --path {{__OUT__}} ", "demo", "/tmp/demo").unwrap();
    assert_eq!(inv.program, "cargo");
    assert_eq!(inv.args, vec!["new", "demo", "--path", "/tmp/demo"]);
}

#[test]
fn quotes_are_not_interpreted() {
    let inv = exec("echo \"a b\"", "", "").unwrap();
    assert_eq!(inv.program, "echo");
    assert_eq!(inv.args, vec!["\"a", "b\""]);
}

#[test]
fn non_ascii_space_does_not_split() {
    let inv = exec("echo a\u{a0}b", "", "").unwrap();
    assert_eq!(inv.args, vec!["a\u{a0}b"]);
}

fn spawned(action: RunAction) -> Vec<String> {
    match action {
        RunAction::Spawn(inv) => {
            let mut words = vec![inv.program];
            words.extend(inv.args);
            words
        }
        RunAction::Finished => panic!("finished early"),
        RunAction::Abort(e) => panic!("aborted: {}", e.to_string()),
    }
}

#[test]
fn run_goes_through_commands_in_order() {
    let mut run = CommandRun::new(
        vec!["git init".to_string(), "echo {{__NAME__}}".to_string()],
        "demo",
        "./demo",
    );
    assert_eq!(spawned(run.step(CommandEvent::Start)), vec!["git", "init"]);
    assert_eq!(spawned(run.step(CommandEvent::Succeeded)), vec!["echo", "demo"]);
    assert!(matches!(run.step(CommandEvent::Succeeded), RunAction::Finished));
}

#[test]
fn run_of_no_commands_finishes_at_once() {
    let mut run = CommandRun::new(vec![], "demo", "./demo");
    assert!(matches!(run.step(CommandEvent::Start), RunAction::Finished));
}

#[test]
fn run_stops_at_an_empty_command() {
    let mut run = CommandRun::new(
        vec!["echo one".to_string(), "   ".to_string(), "echo three".to_string()],
        "demo",
        "./demo",
    );
    assert_eq!(spawned(run.step(CommandEvent::Start)), vec!["echo", "one"]);
    assert!(matches!(
        run.step(CommandEvent::Succeeded),
        RunAction::Abort(ExecError::EmptyCommand)
    ));
    assert_eq!(run.next, 1);
}

#[test]
fn run_stops_when_a_program_cannot_start() {
    let mut run = CommandRun::new(
        vec!["no-such-program".to_string(), "echo two".to_string()],
        "demo",
        "./demo",
    );
    assert_eq!(spawned(run.step(CommandEvent::Start)), vec!["no-such-program"]);
    match run.step(CommandEvent::LaunchFailed("No such file or directory".to_string())) {
        RunAction::Abort(e @ ExecError::LaunchFailed(_)) => assert_eq!(
            e.to_string(),
            "Failed to execute command: No such file or directory"
        ),
        _ => panic!("expected a launch failure"),
    }
}

#[test]
fn run_stops_when_a_program_fails() {
    let mut run = CommandRun::new(
        vec!["false".to_string(), "echo two".to_string()],
        "demo",
        "./demo",
    );
    assert_eq!(spawned(run.step(CommandEvent::Start)), vec!["false"]);
    match run.step(CommandEvent::Exited("exit status: 1".to_string())) {
        RunAction::Abort(e @ ExecError::CommandFailed(_)) => {
            assert_eq!(e.to_string(), "Command failed: exit status: 1")
        }
        _ => panic!("expected a command failure"),
    }
}

#[test]
fn run_from_config_without_commands_is_empty() {
    let doc = ConfigValue::Table(vec![ConfigEntry {
        key: "templates".to_string(),
        value: ConfigValue::Table(vec![]),
    }]);
    let mut run =
        CommandRun::from_config(&doc, "python", CommandVariants::Before, "demo", "./demo").unwrap();
    assert!(run.commands.is_empty());
    assert!(matches!(run.step(CommandEvent::Start), RunAction::Finished));
}

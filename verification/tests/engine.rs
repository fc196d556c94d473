use desktop_helper::engine::{outcome_succeeded, parse_command, render_step, Run, StepOutcome};

fn ran(stdout: &str, stderr: &str, success: bool) -> StepOutcome {
    StepOutcome::Completed { stdout: stdout.to_string(), stderr: stderr.to_string(), success }
}

fn failed(reason: &str) -> StepOutcome {
    StepOutcome::SpawnFailed { reason: reason.to_string() }
}

fn texts(items: &[&str]) -> Vec<String> {
    items.iter().map(|s| s.to_string()).collect()
}

fn replay(commands: &[&str], outcomes: Vec<StepOutcome>) -> (Vec<String>, bool, String) {
    let mut run = Run::new(&texts(commands));
    let mut started = Vec::new();
    for outcome in outcomes {
        let invocation = run.pending().unwrap();
        started.push(invocation.command.clone());
        assert!(run.record(outcome));
    }
    assert!(run.pending().is_none());
    assert!(run.is_done());
    let (success, transcript) = run.finish();
    (started, success, transcript)
}

#[test]
fn parse_command_takes_first_word_as_program() {
    let invocation = parse_command("sudo killall -HUP mDNSResponder").unwrap();
    assert_eq!(invocation.program, "sudo");
    assert_eq!(invocation.args, texts(&["killall", "-HUP", "mDNSResponder"]));
    assert_eq!(invocation.command, "sudo killall -HUP mDNSResponder");
    let alone = parse_command("  true ").unwrap();
    assert_eq!(alone.program, "true");
    assert!(alone.args.is_empty());
    assert_eq!(alone.command, "  true ");
    assert!(parse_command("   ").is_none());
    assert!(parse_command("").is_none());
}

#[test]
fn redirection_is_an_argument_like_any_other() {
    let invocation = parse_command("networksetup -getairportpower en0 > /tmp/state.txt").unwrap();
    assert_eq!(invocation.program, "networksetup");
    assert_eq!(invocation.args, texts(&["-getairportpower", "en0", ">", "/tmp/state.txt"]));
}

#[test]
fn failing_step_does_not_stop_the_batch() {
    let (started, success, transcript) = replay(
        &["true", "false", "echo ok"],
        vec![ran("", "", true), ran("", "", false), ran("ok\n", "", true)],
    );
    assert_eq!(started, texts(&["true", "false", "echo ok"]));
    assert!(!success);
    assert_eq!(transcript, "Command: true\nCommand: false\nCommand: echo ok\nOutput: ok\n\n");
    assert!(transcript.contains("Command: true\n"));
    assert!(transcript.contains("Command: false\n"));
    assert!(transcript.contains("Command: echo ok\n"));
    assert!(transcript.contains("ok"));
}

#[test]
fn every_step_succeeding_is_success() {
    let (_, success, transcript) = replay(&["a", "b"], vec![ran("1", "", true), ran("", "w", true)]);
    assert!(success);
    assert_eq!(transcript, "Command: a\nOutput: 1\nCommand: b\nError: w\n");
}

#[test]
fn first_step_failing_is_failure_and_the_rest_still_runs() {
    let (started, success, transcript) =
        replay(&["a", "b", "c"], vec![ran("", "boom", false), ran("", "", true), ran("", "", true)]);
    assert_eq!(started.len(), 3);
    assert!(!success);
    assert_eq!(transcript, "Command: a\nError: boom\nCommand: b\nCommand: c\n");
}

#[test]
fn spawn_failure_is_recorded_and_the_rest_still_runs() {
    let (started, success, transcript) = replay(
        &["no-such-program --flag", "echo after"],
        vec![failed("No such file or directory (os error 2)"), ran("after\n", "", true)],
    );
    assert_eq!(started, texts(&["no-such-program --flag", "echo after"]));
    assert!(!success);
    assert_eq!(
        transcript,
        "Failed to execute command 'no-such-program --flag': No such file or directory (os error 2)\nCommand: echo after\nOutput: after\n\n"
    );
}

#[test]
fn blank_commands_are_skipped() {
    let (started, success, transcript) =
        replay(&["", "  ", "echo a", "\t", "echo b", " "], vec![ran("a", "", true), ran("b", "", true)]);
    assert_eq!(started, texts(&["echo a", "echo b"]));
    assert!(success);
    assert_eq!(transcript, "Command: echo a\nOutput: a\nCommand: echo b\nOutput: b\n");
}

#[test]
fn empty_list_is_a_success_with_an_empty_transcript() {
    let (started, success, transcript) = replay(&[], vec![]);
    assert!(started.is_empty());
    assert!(success);
    assert_eq!(transcript, "");
    let (started, success, transcript) = replay(&[" ", ""], vec![]);
    assert!(started.is_empty());
    assert!(success);
    assert_eq!(transcript, "");
}

#[test]
fn outcome_without_a_pending_process_is_dropped() {
    let mut run = Run::new(&texts(&["echo a"]));
    assert!(!run.is_done());
    assert!(run.record(ran("a", "", true)));
    assert!(run.is_done());
    assert!(!run.record(ran("again", "", false)));
    let (success, transcript) = run.finish();
    assert!(success);
    assert_eq!(transcript, "Command: echo a\nOutput: a\n");
}

#[test]
fn pending_does_not_move_the_run() {
    let run = Run::new(&texts(&["echo a", "echo b"]));
    assert_eq!(run.pending().unwrap().command, "echo a");
    assert_eq!(run.pending().unwrap().command, "echo a");
}

#[test]
fn step_blocks() {
    assert_eq!(render_step("ls -l", &ran("", "", true)), "Command: ls -l\n");
    assert_eq!(render_step("ls -l", &ran("out", "", false)), "Command: ls -l\nOutput: out\n");
    assert_eq!(render_step("ls -l", &ran("", "err", true)), "Command: ls -l\nError: err\n");
    assert_eq!(
        render_step("ls -l", &ran("out\n", "err\n", true)),
        "Command: ls -l\nOutput: out\n\nError: err\n\n"
    );
    assert_eq!(render_step("x", &failed("denied")), "Failed to execute command 'x': denied\n");
}

#[test]
fn step_success() {
    assert!(outcome_succeeded(&ran("", "err", true)));
    assert!(!outcome_succeeded(&ran("out", "", false)));
    assert!(!outcome_succeeded(&failed("x")));
}

#[test]
fn same_outcomes_give_the_same_result_twice() {
    let commands = ["sudo dscacheutil -flushcache", "sudo killall -HUP mDNSResponder"];
    let first = replay(&commands, vec![ran("", "", true), ran("", "", true)]);
    let second = replay(&commands, vec![ran("", "", true), ran("", "", true)]);
    assert_eq!(first, second);
    assert!(first.1);
}

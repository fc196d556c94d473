use desktop_helper::engine::{Run, StepOutcome};

fn spawn(program: &str, args: &[String]) -> StepOutcome {
    let runtime = tokio::runtime::Builder::new_current_thread().enable_all().build().unwrap();
    let output = runtime.block_on(async { tokio::process::Command::new(program).args(args).output().await });
    match output {
        Ok(output) => StepOutcome::Completed {
            stdout: String::from_utf8_lossy(&output.stdout).into_owned(),
            stderr: String::from_utf8_lossy(&output.stderr).into_owned(),
            success: output.status.success(),
        },
        Err(error) => StepOutcome::SpawnFailed { reason: error.to_string() },
    }
}

fn execute(commands: &[&str]) -> (usize, bool, String) {
    let commands: Vec<String> = commands.iter().map(|c| c.to_string()).collect();
    let mut run = Run::new(&commands);
    let mut started = 0;
    while let Some(invocation) = run.pending() {
        started += 1;
        assert!(run.record(spawn(&invocation.program, &invocation.args)));
    }
    let (success, transcript) = run.finish();
    (started, success, transcript)
}

#[test]
fn true_false_echo_runs_to_the_end() {
    let (started, success, transcript) = execute(&["true", "false", "echo ok"]);
    assert_eq!(started, 3);
    assert!(!success);
    assert_eq!(transcript, "Command: true\nCommand: false\nCommand: echo ok\nOutput: ok\n\n");
    assert!(transcript.contains("Command: true\n"));
    assert!(transcript.contains("Command: false\n"));
    assert!(transcript.contains("Command: echo ok\n"));
    assert!(transcript.contains("Output: ok\n"));
}

#[test]
fn commands_that_succeed_give_success() {
    let (started, success, transcript) = execute(&["true", "echo one two", "true"]);
    assert_eq!(started, 3);
    assert!(success);
    assert_eq!(transcript, "Command: true\nCommand: echo one two\nOutput: one two\n\nCommand: true\n");
}

#[test]
fn program_that_cannot_start_is_recorded() {
    let (started, success, transcript) =
        execute(&["/nonexistent/program-of-no-name --flag", "echo after"]);
    assert_eq!(started, 2);
    assert!(!success);
    assert!(transcript.starts_with("Failed to execute command '/nonexistent/program-of-no-name --flag': "));
    assert!(transcript.ends_with("\nCommand: echo after\nOutput: after\n\n"));
}

#[test]
fn shell_operators_reach_the_program_as_arguments() {
    let (started, success, transcript) = execute(&["echo a && echo $HOME | cat > /dev/null"]);
    assert_eq!(started, 1);
    assert!(success);
    assert_eq!(
        transcript,
        "Command: echo a && echo $HOME | cat > /dev/null\nOutput: a && echo $HOME | cat > /dev/null\n\n"
    );
}

#[test]
fn running_twice_gives_the_same_outcome() {
    let first = execute(&["true", "echo flushed"]);
    let second = execute(&["true", "echo flushed"]);
    assert_eq!(first, second);
    assert!(first.1);
}

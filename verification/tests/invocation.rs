use second_law::{CmdResult, Fault, FixtureTree, Scene, BuildEnv};

fn materialized_scene() -> Scene {
    let mut scene = Scene::new(".");
    let env = BuildEnv { library_path: String::from("/:/ignored") };
    let mut tree = FixtureTree::new();
    tree.add_file(String::from("newlines.txt"), b"1\n\n2\n\n3\n".to_vec());
    tree.add_file(String::from("expected.txt"), b"5\n".to_vec());
    tree.add_file(String::from("binary.bin"), vec![0xff, 0xfe, 0x00]);
    scene.materialize(&env, Some(tree)).unwrap();
    scene
}

#[test]
fn invocation_accumulates_arguments_and_command_line() {
    let scene = materialized_scene();
    let mut cmd = scene.cmd("tool").unwrap();
    cmd.arg("2").unwrap();
    cmd.arg("3").unwrap();
    assert_eq!(cmd.program, "tool");
    assert_eq!(cmd.args, vec!["2".to_string(), "3".to_string()]);
    assert_eq!(cmd.comm_string, "tool 2 3");
    assert!(cmd.env_clear);
    assert!(!cmd.has_run);
}

#[test]
fn invocation_bulk_arguments_append_in_order() {
    let scene = materialized_scene();
    let mut cmd = scene.cmd("tool").unwrap();
    cmd.arg("first").unwrap();
    cmd.args(&vec!["second".to_string(), "third".to_string()]).unwrap();
    assert_eq!(
        cmd.args,
        vec!["first".to_string(), "second".to_string(), "third".to_string()]
    );
    assert_eq!(cmd.comm_string, "tool first second third");
}

#[test]
fn spawn_request_carries_the_whole_launch() {
    let scene = materialized_scene();
    let mut cmd = scene.cmd("tool").unwrap();
    cmd.arg("x").unwrap();
    cmd.env("KEY", "VALUE").unwrap();
    cmd.pipe_in(b"payload".to_vec()).unwrap();
    let req = cmd.spawn_request().unwrap();
    assert_eq!(req.program, "tool");
    assert_eq!(req.args, vec!["x".to_string()]);
    assert_eq!(req.env_vars, vec![("KEY".to_string(), "VALUE".to_string())]);
    assert!(req.env_clear);
    assert_eq!(req.stdin, Some(b"payload".to_vec()));
    assert_eq!(req.comm_string, "tool x");
    assert!(cmd.has_run);
}

#[test]
fn second_run_faults_despite_intervening_argument_calls() {
    let scene = materialized_scene();
    let mut cmd = scene.cmd("tool").unwrap();
    cmd.arg("a").unwrap();
    assert!(cmd.spawn_request().is_ok());
    assert_eq!(cmd.arg("b"), Err(Fault::AlreadyRun));
    assert_eq!(cmd.env("K", "V"), Err(Fault::AlreadyRun));
    assert!(matches!(cmd.spawn_request(), Err(Fault::AlreadyRun)));
}

#[test]
fn second_stdin_faults_despite_intervening_argument_calls() {
    let scene = materialized_scene();
    let mut cmd = scene.cmd("tool").unwrap();
    cmd.pipe_in(b"one".to_vec()).unwrap();
    cmd.arg("a").unwrap();
    assert_eq!(cmd.pipe_in(b"two".to_vec()), Err(Fault::MultipleStdin));
    assert_eq!(cmd.pipe_in_fixture("newlines.txt"), Err(Fault::MultipleStdin));
}

#[test]
fn argument_from_fixture_uses_file_text() {
    let scene = materialized_scene();
    let mut cmd = scene.cmd("tool").unwrap();
    cmd.arg_fixture("newlines.txt").unwrap();
    assert_eq!(cmd.args, vec!["1\n\n2\n\n3\n".to_string()]);
}

#[test]
fn argument_from_missing_fixture_faults() {
    let scene = materialized_scene();
    let mut cmd = scene.cmd("tool").unwrap();
    assert_eq!(cmd.arg_fixture("absent.txt"), Err(Fault::FixtureAbsent));
    assert_eq!(cmd.args.len(), 0);
}

#[test]
fn argument_from_binary_fixture_faults() {
    let scene = materialized_scene();
    let mut cmd = scene.cmd("tool").unwrap();
    assert_eq!(cmd.arg_fixture("binary.bin"), Err(Fault::NonTextOutput));
}

#[test]
fn stdin_from_fixture_uses_file_bytes() {
    let scene = materialized_scene();
    let mut cmd = scene.cmd("tool").unwrap();
    cmd.pipe_in_fixture("newlines.txt").unwrap();
    assert_eq!(cmd.stdin, Some(b"1\n\n2\n\n3\n".to_vec()));
}

#[test]
fn captured_output_is_decoded_text() {
    let scene = materialized_scene();
    let mut cmd = scene.cmd("tool").unwrap();
    cmd.spawn_request().unwrap();
    let result = cmd.collect_output(true, b"5\n".to_vec(), Vec::new()).unwrap();
    assert!(result.success);
    assert_eq!(result.stdout, "5\n");
    assert_eq!(result.stderr, "");
}

#[test]
fn non_text_output_faults() {
    let scene = materialized_scene();
    let mut cmd = scene.cmd("tool").unwrap();
    cmd.spawn_request().unwrap();
    match cmd.collect_output(true, vec![0xff, 0xfe], Vec::new()) {
        Err(f) => assert_eq!(f, Fault::NonTextOutput),
        Ok(_) => panic!("undecodable stdout must fault"),
    }
}

fn plain_result(success: bool, stdout: &str, stderr: &str) -> CmdResult {
    CmdResult {
        success,
        stdout: String::from(stdout),
        stderr: String::from(stderr),
        fixtures: FixtureTree::new(),
    }
}

#[test]
fn summing_invocation_succeeds_with_five() {
    // A summing utility called with ["2", "3"] and a cleared environment
    // succeeds with stdout "5" and empty stderr.
    let scene = materialized_scene();
    let mut cmd = scene.cmd("sum-tool").unwrap();
    cmd.arg("2").unwrap();
    cmd.arg("3").unwrap();
    let req = cmd.spawn_request().unwrap();
    assert!(req.env_clear);
    assert_eq!(req.args, vec!["2".to_string(), "3".to_string()]);
    let result = cmd.collect_output(true, b"5\n".to_vec(), Vec::new()).unwrap();
    assert!(result.success().is_ok());
    assert!(result.stdout_only("5").is_ok());
}

#[test]
fn non_numeric_invocation_fails_with_message() {
    // A non-numeric argument fails with a non-zero exit and exactly the
    // parse-failure message on stderr.
    let scene = materialized_scene();
    let mut cmd = scene.cmd("sum-tool").unwrap();
    cmd.arg("three").unwrap();
    cmd.spawn_request().unwrap();
    let result = cmd
        .collect_output(
            false,
            Vec::new(),
            b"failure: could not parse argument 'three'".to_vec(),
        )
        .unwrap();
    assert!(result.failure().is_ok());
    assert!(result.success().is_err());
    assert!(result
        .stderr_is("failure: could not parse argument 'three'")
        .is_ok());
    assert!(result.stderr_only("failure: could not parse argument 'three'").is_ok());
    assert!(result.stderr_is("failure: something else").is_err());
}

#[test]
fn averaging_fixture_lines_rounds_to_two() {
    // A fixture of numeric lines separated by blank lines, fed through
    // argument_from_fixture / stdin_from_fixture, averages to 2.
    let scene = materialized_scene();
    let mut by_arg = scene.cmd("avg-tool").unwrap();
    by_arg.arg_fixture("newlines.txt").unwrap();
    assert_eq!(by_arg.args, vec!["1\n\n2\n\n3\n".to_string()]);
    let mut by_stdin = scene.cmd("avg-tool").unwrap();
    by_stdin.pipe_in_fixture("newlines.txt").unwrap();
    by_stdin.spawn_request().unwrap();
    let values: Vec<u64> = String::from_utf8(by_stdin.stdin.clone().unwrap())
        .unwrap()
        .split('\n')
        .filter(|line| !line.is_empty())
        .map(|line| line.parse::<u64>().unwrap())
        .collect();
    let rounded = (values.iter().sum::<u64>() + values.len() as u64 / 2) / values.len() as u64;
    assert_eq!(rounded, 2);
    let result = by_stdin
        .collect_output(true, format!("{}\n", rounded).into_bytes(), Vec::new())
        .unwrap();
    assert!(result.stdout_only("2").is_ok());
}

#[test]
fn trailing_whitespace_is_trimmed_in_comparisons() {
    let result = plain_result(true, "5\n \t", "");
    assert!(result.stdout_is("5").is_ok());
    assert!(result.stdout_is("5\n").is_ok());
    assert!(result.stdout_only("5").is_ok());
}

#[test]
fn leading_whitespace_is_not_trimmed() {
    let result = plain_result(true, " 5", "");
    assert!(result.stdout_is("5").is_err());
    assert!(result.stdout_is(" 5").is_ok());
}

#[test]
fn stdout_only_requires_empty_stderr() {
    let result = plain_result(true, "5", "warning");
    assert!(result.stdout_is("5").is_ok());
    assert_eq!(result.stdout_only("5"), Err(Fault::AssertionFailed));
    assert_eq!(result.no_stderr(), Err(Fault::AssertionFailed));
}

#[test]
fn stderr_only_requires_empty_stdout() {
    let result = plain_result(false, "noise", "boom");
    assert!(result.stderr_is("boom").is_ok());
    assert_eq!(result.stderr_only("boom"), Err(Fault::AssertionFailed));
}

#[test]
fn fails_silently_needs_failure_and_empty_stderr() {
    assert!(plain_result(false, "out", "").fails_silently().is_ok());
    assert_eq!(
        plain_result(true, "", "").fails_silently(),
        Err(Fault::AssertionFailed)
    );
    assert_eq!(
        plain_result(false, "", "err").fails_silently(),
        Err(Fault::AssertionFailed)
    );
}

#[test]
fn fixture_backed_comparisons_read_staged_text() {
    let scene = materialized_scene();
    let mut cmd = scene.cmd("tool").unwrap();
    cmd.spawn_request().unwrap();
    let result = cmd.collect_output(true, b"5".to_vec(), Vec::new()).unwrap();
    assert!(result.stdout_is_fixture("expected.txt").is_ok());
    assert!(result.stdout_only_fixture("expected.txt").is_ok());
    assert_eq!(result.stdout_is_fixture("absent.txt"), Err(Fault::FixtureAbsent));
    assert_eq!(result.stdout_is_fixture("binary.bin"), Err(Fault::NonTextOutput));
    let failing = cmd
        .collect_output(false, Vec::new(), b"5".to_vec())
        .unwrap();
    assert!(failing.stderr_is_fixture("expected.txt").is_ok());
    assert!(failing.stderr_only_fixture("expected.txt").is_ok());
}

#[test]
fn fault_messages_name_the_misuse() {
    assert_eq!(
        Fault::AlreadyRun.message(),
        "you have already run this UCommand, if you want to run another command in the same test, use scene.ucmd()"
    );
    assert!(Fault::MultipleStdin.message().contains("input stream"));
    assert!(Fault::AlreadyInstantiated.message().contains("before the first call"));
}

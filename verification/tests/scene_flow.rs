use second_law::{
    read_scenario_fixture, BuildEnv, Fault, FixtureTree, Scene, StageOp,
};

fn plain_env() -> BuildEnv {
    // The first search-path entry is the filesystem root, and the scene
    // is built for the binary subpath ".", so the resolved binary path
    // canonicalizes deterministically to "/".
    BuildEnv { library_path: String::from("/:/ignored") }
}

fn sample_tree() -> FixtureTree {
    let mut tree = FixtureTree::new();
    tree.add_dir(String::from("sub"));
    tree.add_file(String::from("newlines.txt"), b"1\n\n2\n\n3\n".to_vec());
    tree.add_file(String::from("sub/inner.txt"), b"inner".to_vec());
    tree
}

#[test]
fn fixture_root_can_only_be_set_once() {
    let mut scene = Scene::new("bin");
    assert!(scene.fixtures_root("fixtures").is_ok());
    assert_eq!(scene.fixtures_root("elsewhere"), Err(Fault::FixtureRootSetTwice));
}

#[test]
fn multicall_can_only_be_set_once() {
    let mut scene = Scene::new("bin");
    assert!(scene.multicall("sum").is_ok());
    assert_eq!(scene.multicall("avg"), Err(Fault::MulticallSetTwice));
}

#[test]
fn configuration_after_materialization_faults() {
    let mut scene = Scene::new(".");
    scene.materialize(&plain_env(), Some(FixtureTree::new())).unwrap();
    assert_eq!(scene.fixtures_root("x"), Err(Fault::AlreadyInstantiated));
    assert_eq!(scene.fixtures_subdir("x"), Err(Fault::AlreadyInstantiated));
    assert_eq!(scene.multicall("x"), Err(Fault::AlreadyInstantiated));
    assert_eq!(scene.subcmd_arg("x"), Err(Fault::AlreadyInstantiated));
    assert_eq!(scene.subcmd_args(&vec!["x".to_string()]), Err(Fault::AlreadyInstantiated));
}

#[test]
fn command_builders_fault_before_materialization() {
    let scene = Scene::new(".");
    assert!(matches!(scene.ucmd(), Err(Fault::NotMaterialized)));
    assert!(matches!(scene.cmd("tool"), Err(Fault::NotMaterialized)));
    assert!(matches!(scene.ucmd_keepenv(), Err(Fault::NotMaterialized)));
    assert!(matches!(scene.cmd_keepenv("tool"), Err(Fault::NotMaterialized)));
    assert!(matches!(scene.working_dir(), Err(Fault::NotMaterialized)));
    assert!(!scene.is_materialized());
}

#[test]
fn missing_fixture_source_faults() {
    let mut scene = Scene::new(".");
    assert!(matches!(
        scene.materialize(&plain_env(), None),
        Err(Fault::FixturesMissing)
    ));
    assert!(!scene.is_materialized());
}

#[test]
fn unresolvable_binary_faults() {
    let mut scene = Scene::new("no-such-binary-anywhere");
    let env = BuildEnv {
        library_path: String::from("/no-such-dir-for-sure:/other"),
    };
    assert!(matches!(
        scene.materialize(&env, Some(FixtureTree::new())),
        Err(Fault::BinaryUnresolved)
    ));
}

#[test]
fn multicall_resolves_fixture_subdirectory_and_first_argument() {
    let mut scene = Scene::new(".");
    scene.multicall("sum").unwrap();
    assert_eq!(scene.fixture_source(), "tests/fixtures/sum");
    scene.subcmd_arg("--fast").unwrap();
    scene.materialize(&plain_env(), Some(sample_tree())).unwrap();
    let cmd = scene.ucmd().unwrap();
    assert_eq!(cmd.args, vec!["sum".to_string(), "--fast".to_string()]);
    let keepenv = scene.ucmd_keepenv().unwrap();
    assert_eq!(keepenv.args, vec!["sum".to_string(), "--fast".to_string()]);
    assert!(!keepenv.env_clear);
}

#[test]
fn multicall_argument_stays_first_under_later_argument_calls() {
    let mut scene = Scene::new(".");
    scene.multicall("sum").unwrap();
    scene.materialize(&plain_env(), Some(sample_tree())).unwrap();
    let mut cmd = scene.ucmd().unwrap();
    cmd.arg("2").unwrap();
    cmd.arg("3").unwrap();
    assert_eq!(cmd.args[0], "sum");
    assert_eq!(cmd.args, vec!["sum".to_string(), "2".to_string(), "3".to_string()]);
}

#[test]
fn fixture_resolution_combines_root_subcommand_and_subdir() {
    let mut scene = Scene::new("bin");
    scene.fixtures_root("custom/fixtures").unwrap();
    scene.multicall("sum").unwrap();
    scene.fixtures_subdir("deep").unwrap();
    scene.fixtures_subdir("deeper").unwrap();
    assert_eq!(scene.fixture_source(), "custom/fixtures/sum/deep/deeper");
}

#[test]
fn prefix_arguments_accumulate_in_order() {
    let mut scene = Scene::new(".");
    scene.subcmd_arg("a").unwrap();
    scene.subcmd_args(&vec!["b".to_string(), "c".to_string()]).unwrap();
    scene.materialize(&plain_env(), Some(FixtureTree::new())).unwrap();
    let cmd = scene.ucmd().unwrap();
    assert_eq!(cmd.args, vec!["a".to_string(), "b".to_string(), "c".to_string()]);
}

#[test]
fn materialization_stages_the_whole_tree() {
    let mut scene = Scene::new(".");
    let plan = scene.materialize(&plain_env(), Some(sample_tree())).unwrap();
    let settings = scene.settings().unwrap();
    let root = settings.tmp_root.clone();
    assert!(!root.is_empty());
    assert!(!root.ends_with('/'));
    assert_eq!(
        plan,
        vec![
            StageOp::MakeDir(format!("{}/sub", root)),
            StageOp::WriteFile(format!("{}/newlines.txt", root), b"1\n\n2\n\n3\n".to_vec()),
            StageOp::WriteFile(format!("{}/sub/inner.txt", root), b"inner".to_vec()),
        ]
    );
    assert_eq!(settings.debug_bin_path, "/");
    assert_eq!(settings.repo_fixtures_path, "tests/fixtures");
}

#[test]
fn materialization_is_memoized() {
    let mut scene = Scene::new(".");
    let first = scene.materialize(&plain_env(), Some(sample_tree())).unwrap();
    assert!(!first.is_empty());
    let root = scene.settings().unwrap().tmp_root.clone();
    let args = scene.settings().unwrap().subcmd_args.clone();
    // A second materialization returns the memoized snapshot untouched
    // and copies nothing.
    let second = scene.materialize(&plain_env(), Some(sample_tree())).unwrap();
    assert!(second.is_empty());
    assert_eq!(scene.settings().unwrap().tmp_root, root);
    assert_eq!(scene.settings().unwrap().subcmd_args, args);
    let third = scene.materialize(&plain_env(), None).unwrap();
    assert!(third.is_empty());
}

#[test]
fn working_dir_is_bound_to_the_sandbox_root() {
    let mut scene = Scene::new(".");
    scene.materialize(&plain_env(), Some(sample_tree())).unwrap();
    let root = scene.settings().unwrap().tmp_root.clone();
    let at = scene.working_dir().unwrap();
    assert_eq!(at.as_string(), root);
    assert_eq!(at.minus_as_string(&at.plus_as_string("a")), "a");
}

#[test]
fn commands_work_in_the_sandbox_root() {
    let mut scene = Scene::new(".");
    scene.materialize(&plain_env(), Some(sample_tree())).unwrap();
    let root = scene.settings().unwrap().tmp_root.clone();
    let cmd = scene.ucmd().unwrap();
    assert_eq!(cmd.curdir, root);
    assert_eq!(cmd.program, "/");
}

#[test]
fn staged_fixtures_are_readable_by_name() {
    let mut scene = Scene::new(".");
    scene.materialize(&plain_env(), Some(sample_tree())).unwrap();
    let settings = scene.settings().unwrap();
    assert_eq!(
        read_scenario_fixture(settings, "newlines.txt"),
        Ok(String::from("1\n\n2\n\n3\n"))
    );
    assert_eq!(
        read_scenario_fixture(settings, "sub/inner.txt"),
        Ok(String::from("inner"))
    );
    assert_eq!(
        read_scenario_fixture(settings, "absent.txt"),
        Err(Fault::FixtureAbsent)
    );
}

#[test]
fn undecodable_staged_fixture_is_not_text() {
    let mut scene = Scene::new(".");
    let mut tree = FixtureTree::new();
    tree.add_file(String::from("binary.bin"), vec![0xc0, 0x00]);
    scene.materialize(&plain_env(), Some(tree)).unwrap();
    assert_eq!(
        read_scenario_fixture(scene.settings().unwrap(), "binary.bin"),
        Err(Fault::NonTextOutput)
    );
}

//! A single-use child-process invocation builder. Arguments, environment
//! overrides and an optional stdin payload accumulate until the first
//! run; the run flag then refuses every later mutation or rerun. The
//! launch itself is described by a `SpawnRequest` of plain values, and a
//! finished child's captured bytes are decoded into a `CmdResult`.

use vstd::prelude::*;
use vstd::utf8::{decode_utf8, valid_utf8};

use crate::cmdresult::CmdResult;
use crate::fault::Fault;
use crate::fixtures::{clone_bytes, clone_string_vec, find_file, fixture_text, FixtureTreeModel};
use crate::settings::SceneSettings;

verus! {

/// A UCommand is a wrapper around an individual command invocation that
/// tracks the accumulated arguments (and the assembled command line, for
/// diagnostics), the environment policy, an optional stdin payload, and
/// whether the invocation has already run.
pub struct UCommand {
    pub program: String,
    pub comm_string: String,
    pub args: Vec<String>,
    pub env_vars: Vec<(String, String)>,
    pub env_clear: bool,
    pub curdir: String,
    pub stdin: Option<Vec<u8>>,
    pub has_run: bool,
    pub fixtures: crate::fixtures::FixtureTree,
}

pub ghost struct UCommandModel {
    pub program: Seq<char>,
    pub comm_string: Seq<char>,
    pub args: Seq<Seq<char>>,
    pub env_vars: Seq<(Seq<char>, Seq<char>)>,
    pub env_clear: bool,
    pub curdir: Seq<char>,
    pub stdin: Option<Seq<u8>>,
    pub has_run: bool,
    pub fixtures: FixtureTreeModel,
}

impl View for UCommand {
    type V = UCommandModel;

    open spec fn view(&self) -> UCommandModel {
        UCommandModel {
            program: self.program@,
            comm_string: self.comm_string@,
            args: self.args.deep_view(),
            env_vars: self.env_vars.deep_view(),
            env_clear: self.env_clear,
            curdir: self.curdir@,
            stdin: self.stdin.deep_view(),
            has_run: self.has_run,
            fixtures: self.fixtures@,
        }
    }
}

/// The model of a freshly built invocation: the program as both target
/// and assembled command line, no arguments, no environment overrides,
/// no stdin, not yet run, working directory the sandbox root unless a
/// caller overrides it.
pub open spec fn new_command(
    invoked: Seq<char>,
    settings: crate::settings::SettingsModel,
    env_clear: bool,
    curdir: Option<Seq<char>>,
) -> UCommandModel {
    UCommandModel {
        program: invoked,
        comm_string: invoked,
        args: Seq::empty(),
        env_vars: Seq::empty(),
        env_clear: env_clear,
        curdir: match curdir {
            Some(c) => c,
            None => settings.tmp_root,
        },
        stdin: None,
        has_run: false,
        fixtures: settings.staged,
    }
}

/// Appending one argument: the argument list grows by it and the
/// assembled command line gains a space and the argument.
pub open spec fn arg_step(m: UCommandModel, a: Seq<char>) -> UCommandModel {
    UCommandModel { args: m.args.push(a), comm_string: m.comm_string + seq![' '] + a, ..m }
}

/// Appending a list of arguments, first to last.
pub open spec fn args_steps(m: UCommandModel, xs: Seq<Seq<char>>) -> UCommandModel
    decreases xs.len(),
{
    if xs.len() == 0 {
        m
    } else {
        arg_step(args_steps(m, xs.drop_last()), xs.last())
    }
}

/// Adding one environment override for the child.
pub open spec fn env_step(m: UCommandModel, key: Seq<char>, val: Seq<char>) -> UCommandModel {
    UCommandModel { env_vars: m.env_vars.push((key, val)), ..m }
}

/// Setting the single stdin payload.
pub open spec fn stdin_step(m: UCommandModel, input: Seq<u8>) -> UCommandModel {
    UCommandModel { stdin: Some(input), ..m }
}

/// Marking the invocation as run.
pub open spec fn spawn_step(m: UCommandModel) -> UCommandModel {
    UCommandModel { has_run: true, ..m }
}

pub proof fn lemma_args_steps_frame(m: UCommandModel, xs: Seq<Seq<char>>)
    ensures
        args_steps(m, xs).has_run == m.has_run,
        args_steps(m, xs).stdin == m.stdin,
        args_steps(m, xs).env_vars == m.env_vars,
        args_steps(m, xs).env_clear == m.env_clear,
        args_steps(m, xs).program == m.program,
        args_steps(m, xs).curdir == m.curdir,
        args_steps(m, xs).fixtures == m.fixtures,
    decreases xs.len(),
{
    if xs.len() > 0 {
        lemma_args_steps_frame(m, xs.drop_last());
    }
}

/// Appending arguments appends: after any list of argument calls the
/// argument list is the old list followed by the new arguments, so a
/// prefix of the argument list — a multicall subcommand in first
/// position, say — is never disturbed by later argument calls.
pub proof fn lemma_args_steps_append(m: UCommandModel, xs: Seq<Seq<char>>)
    ensures
        args_steps(m, xs).args == m.args + xs,
    decreases xs.len(),
{
    if xs.len() == 0 {
        assert(m.args + xs =~= m.args);
    } else {
        lemma_args_steps_append(m, xs.drop_last());
        assert(m.args + xs.drop_last() + seq![xs.last()] =~= m.args + xs);
    }
}

/// One builder call between construction and run: an argument, an
/// environment override, or a stdin payload.
pub ghost enum BuildStep {
    Argument(Seq<char>),
    EnvVar(Seq<char>, Seq<char>),
    Stdin(Seq<u8>),
}

pub open spec fn apply_build_step(m: UCommandModel, s: BuildStep) -> UCommandModel {
    match s {
        BuildStep::Argument(a) => arg_step(m, a),
        BuildStep::EnvVar(k, v) => env_step(m, k, v),
        BuildStep::Stdin(b) => stdin_step(m, b),
    }
}

pub open spec fn apply_build_steps(m: UCommandModel, ss: Seq<BuildStep>) -> UCommandModel
    decreases ss.len(),
{
    if ss.len() == 0 {
        m
    } else {
        apply_build_steps(apply_build_step(m, ss[0]), ss.drop_first())
    }
}

/// An invocation runs at most once and takes at most one stdin payload:
/// no sequence of argument, environment or stdin calls ever clears the
/// run flag, and none clears a stdin payload once one is set. Together
/// with the contracts of `spawn_request` and `pipe_in`, which fault
/// exactly when the flag or the payload is already set, a second run
/// faults whatever builder calls stand between, and so does a second
/// stdin payload.
pub proof fn lemma_run_once(m: UCommandModel, ss: Seq<BuildStep>)
    ensures
        apply_build_steps(m, ss).has_run == m.has_run,
        m.stdin is Some ==> apply_build_steps(m, ss).stdin is Some,
    decreases ss.len(),
{
    if ss.len() > 0 {
        lemma_run_once(apply_build_step(m, ss[0]), ss.drop_first());
    }
}

/// Everything a child-process launch needs, as plain values: the program,
/// its arguments, the environment policy (overrides plus whether the
/// parent environment is cleared first), the working directory, the
/// optional stdin payload, and the assembled command line for
/// diagnostics.
pub struct SpawnRequest {
    pub program: String,
    pub args: Vec<String>,
    pub env_vars: Vec<(String, String)>,
    pub env_clear: bool,
    pub curdir: String,
    pub stdin: Option<Vec<u8>>,
    pub comm_string: String,
}

pub ghost struct SpawnRequestModel {
    pub program: Seq<char>,
    pub args: Seq<Seq<char>>,
    pub env_vars: Seq<(Seq<char>, Seq<char>)>,
    pub env_clear: bool,
    pub curdir: Seq<char>,
    pub stdin: Option<Seq<u8>>,
    pub comm_string: Seq<char>,
}

impl View for SpawnRequest {
    type V = SpawnRequestModel;

    open spec fn view(&self) -> SpawnRequestModel {
        SpawnRequestModel {
            program: self.program@,
            args: self.args.deep_view(),
            env_vars: self.env_vars.deep_view(),
            env_clear: self.env_clear,
            curdir: self.curdir@,
            stdin: self.stdin.deep_view(),
            comm_string: self.comm_string@,
        }
    }
}

/// The launch an invocation state describes.
pub open spec fn request_of(m: UCommandModel) -> SpawnRequestModel {
    SpawnRequestModel {
        program: m.program,
        args: m.args,
        env_vars: m.env_vars,
        env_clear: m.env_clear,
        curdir: m.curdir,
        stdin: m.stdin,
        comm_string: m.comm_string,
    }
}

fn clone_env_vars(v: &Vec<(String, String)>) -> (r: Vec<(String, String)>)
    ensures
        r.deep_view() == v.deep_view(),
{
    let mut r: Vec<(String, String)> = Vec::new();
    let n = v.len();
    let mut i: usize = 0;
    while i < n
        invariant
            i <= n,
            n == v@.len(),
            r@.len() == i,
            forall|k: int| 0 <= k < i ==> r@[k].0@ == v@[k].0@ && r@[k].1@ == v@[k].1@,
        decreases n - i,
    {
        let key = v[i].0.clone();
        let val = v[i].1.clone();
        r.push((key, val));
        i = i + 1;
    }
    proof {
        assert(r.deep_view() =~= v.deep_view());
    }
    r
}

impl UCommand {
    /// A fresh invocation of `invoked`, bound to the settings' sandbox:
    /// the working directory is the sandbox root unless `curdir`
    /// overrides it, and the child's environment is cleared when
    /// `env_clear` is set.
    pub fn new(
        invoked: &str,
        settings: &SceneSettings,
        env_clear: bool,
        curdir: Option<String>,
    ) -> (r: UCommand)
        ensures
            r@ == new_command(invoked@, settings@, env_clear, curdir.deep_view()),
    {
        let curdir_used = match curdir {
            Some(c) => c,
            None => settings.tmp_root.clone(),
        };
        let r = UCommand {
            program: invoked.to_owned(),
            comm_string: invoked.to_owned(),
            args: Vec::new(),
            env_vars: Vec::new(),
            env_clear,
            curdir: curdir_used,
            stdin: None,
            has_run: false,
            fixtures: settings.staged.duplicate(),
        };
        proof {
            assert(r@.args =~= new_command(
                invoked@,
                settings@,
                env_clear,
                curdir.deep_view(),
            ).args);
            assert(r@.env_vars =~= new_command(
                invoked@,
                settings@,
                env_clear,
                curdir.deep_view(),
            ).env_vars);
        }
        r
    }

    /// Appends one argument. Faults when the invocation has already run.
    pub fn arg(&mut self, arg_text: &str) -> (r: Result<(), Fault>)
        ensures
            old(self)@.has_run ==> r == Err::<(), Fault>(Fault::AlreadyRun) && final(self)@
                == old(self)@,
            !old(self)@.has_run ==> r == Ok::<(), Fault>(()) && final(self)@ == arg_step(
                old(self)@,
                arg_text@,
            ),
    {
        if self.has_run {
            return Err(Fault::AlreadyRun);
        }
        self.comm_string.append(" ");
        self.comm_string.append(arg_text);
        self.args.push(arg_text.to_owned());
        proof {
            reveal_strlit(" ");
            assert(self@.comm_string =~= old(self)@.comm_string + seq![' '] + arg_text@);
            assert(self@.args =~= old(self)@.args.push(arg_text@));
        }
        Ok(())
    }

    /// Appends each of `added` in order. Faults when the invocation has
    /// already run.
    pub fn args(&mut self, added: &Vec<String>) -> (r: Result<(), Fault>)
        ensures
            old(self)@.has_run ==> r == Err::<(), Fault>(Fault::AlreadyRun) && final(self)@
                == old(self)@,
            !old(self)@.has_run ==> r == Ok::<(), Fault>(()) && final(self)@ == args_steps(
                old(self)@,
                added.deep_view(),
            ),
    {
        if self.has_run {
            return Err(Fault::AlreadyRun);
        }
        let n = added.len();
        let mut i: usize = 0;
        proof {
            assert(args_steps(old(self)@, added.deep_view().take(0)) == old(self)@);
        }
        while i < n
            invariant
                i <= n,
                n == added@.len(),
                self@ == args_steps(old(self)@, added.deep_view().take(i as int)),
                !old(self)@.has_run,
            decreases n - i,
        {
            proof {
                lemma_args_steps_frame(old(self)@, added.deep_view().take(i as int));
            }
            let _ = self.arg(added[i].as_str());
            proof {
                let dv = added.deep_view();
                assert(dv.take(i + 1).drop_last() =~= dv.take(i as int));
                assert(dv.take(i + 1).last() == dv[i as int]);
            }
            i = i + 1;
        }
        proof {
            assert(added.deep_view().take(n as int) =~= added.deep_view());
        }
        Ok(())
    }

    /// Like `arg`, but uses the text of the staged fixture file at the
    /// provided relative path as the argument value. Faults when no such
    /// file is staged, when its bytes are not text, or when the
    /// invocation has already run.
    pub fn arg_fixture(&mut self, file_rel_path: &str) -> (r: Result<(), Fault>)
        ensures
            find_file(old(self)@.fixtures.files, file_rel_path@) is None ==> r == Err::<(), Fault>(
                Fault::FixtureAbsent,
            ) && final(self)@ == old(self)@,
            find_file(old(self)@.fixtures.files, file_rel_path@) matches Some(b) ==> if !valid_utf8(
                b,
            ) {
                r == Err::<(), Fault>(Fault::NonTextOutput) && final(self)@ == old(self)@
            } else if old(self)@.has_run {
                r == Err::<(), Fault>(Fault::AlreadyRun) && final(self)@ == old(self)@
            } else {
                r == Ok::<(), Fault>(()) && final(self)@ == arg_step(old(self)@, decode_utf8(b))
            },
    {
        let contents = match fixture_text(&self.fixtures, file_rel_path) {
            Ok(s) => s,
            Err(f) => {
                return Err(f);
            },
        };
        self.arg(contents.as_str())
    }

    /// Sets the stdin payload to feed to the child when spawned. The
    /// harness models exactly one linear input stream per run, so a
    /// second payload faults, whether or not the invocation has run.
    pub fn pipe_in(&mut self, input: Vec<u8>) -> (r: Result<(), Fault>)
        ensures
            old(self)@.stdin is Some ==> r == Err::<(), Fault>(Fault::MultipleStdin) && final(self)@
                == old(self)@,
            old(self)@.stdin is None ==> r == Ok::<(), Fault>(()) && final(self)@ == stdin_step(
                old(self)@,
                input@,
            ),
    {
        if self.stdin.is_some() {
            return Err(Fault::MultipleStdin);
        }
        proof {
            assert(input.deep_view() =~= input@);
        }
        self.stdin = Some(input);
        Ok(())
    }

    /// Like `pipe_in`, but uses the bytes of the staged fixture file at
    /// the provided relative path as the payload. Faults when no such
    /// file is staged or when a payload was already set.
    pub fn pipe_in_fixture(&mut self, file_rel_path: &str) -> (r: Result<(), Fault>)
        ensures
            find_file(old(self)@.fixtures.files, file_rel_path@) is None ==> r == Err::<(), Fault>(
                Fault::FixtureAbsent,
            ) && final(self)@ == old(self)@,
            find_file(old(self)@.fixtures.files, file_rel_path@) matches Some(b)
                ==> if old(self)@.stdin is Some {
                r == Err::<(), Fault>(Fault::MultipleStdin) && final(self)@ == old(self)@
            } else {
                r == Ok::<(), Fault>(()) && final(self)@ == stdin_step(old(self)@, b)
            },
    {
        let contents = match self.fixtures.fixture_bytes(file_rel_path) {
            Some(b) => b,
            None => {
                return Err(Fault::FixtureAbsent);
            },
        };
        self.pipe_in(contents)
    }

    /// Adds or overrides one environment variable for the child. Faults
    /// when the invocation has already run.
    pub fn env(&mut self, key: &str, val: &str) -> (r: Result<(), Fault>)
        ensures
            old(self)@.has_run ==> r == Err::<(), Fault>(Fault::AlreadyRun) && final(self)@
                == old(self)@,
            !old(self)@.has_run ==> r == Ok::<(), Fault>(()) && final(self)@ == env_step(
                old(self)@,
                key@,
                val@,
            ),
    {
        if self.has_run {
            return Err(Fault::AlreadyRun);
        }
        self.env_vars.push((key.to_owned(), val.to_owned()));
        proof {
            assert(self@.env_vars =~= old(self)@.env_vars.push((key@, val@)));
        }
        Ok(())
    }

    /// Describes the launch and marks the invocation as run — the
    /// single-run contract is upheld from this moment, whether or not a
    /// child ever starts. Faults when the invocation has already run.
    pub fn spawn_request(&mut self) -> (r: Result<SpawnRequest, Fault>)
        ensures
            old(self)@.has_run ==> r == Err::<SpawnRequest, Fault>(Fault::AlreadyRun)
                && final(self)@ == old(self)@,
            !old(self)@.has_run ==> final(self)@ == spawn_step(old(self)@) && (r matches Ok(req)
                && req@ == request_of(old(self)@)),
    {
        if self.has_run {
            return Err(Fault::AlreadyRun);
        }
        self.has_run = true;
        let stdin = match &self.stdin {
            Some(b) => Some(clone_bytes(b)),
            None => None,
        };
        let req = SpawnRequest {
            program: self.program.clone(),
            args: clone_string_vec(&self.args),
            env_vars: clone_env_vars(&self.env_vars),
            env_clear: self.env_clear,
            curdir: self.curdir.clone(),
            stdin,
            comm_string: self.comm_string.clone(),
        };
        Ok(req)
    }

    /// Decodes a finished child's exit state and captured bytes into an
    /// execution result. Non-decodable output is a fault: the harness
    /// assumes well-formed text output.
    pub fn collect_output(&self, success: bool, stdout: Vec<u8>, stderr: Vec<u8>) -> (r: Result<
        CmdResult,
        Fault,
    >)
        ensures
            valid_utf8(stdout@) && valid_utf8(stderr@) ==> (r matches Ok(c) && c.success == success
                && c.stdout@ == decode_utf8(stdout@) && c.stderr@ == decode_utf8(stderr@)
                && c.fixtures@ == self@.fixtures),
            !(valid_utf8(stdout@) && valid_utf8(stderr@)) ==> r == Err::<CmdResult, Fault>(
                Fault::NonTextOutput,
            ),
    {
        let out = match crate::sys::bytes_to_string(stdout) {
            Some(s) => s,
            None => {
                return Err(Fault::NonTextOutput);
            },
        };
        let err = match crate::sys::bytes_to_string(stderr) {
            Some(s) => s,
            None => {
                return Err(Fault::NonTextOutput);
            },
        };
        Ok(
            CmdResult {
                success,
                stdout: out,
                stderr: err,
                fixtures: self.fixtures.duplicate(),
            },
        )
    }
}

} // verus!

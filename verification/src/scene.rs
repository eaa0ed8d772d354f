//! An environment for running a single test case of a multicall binary.
//! A scene serves three functions: it centralizes the logic for locating
//! the binary under test and invoking it, it provides a private temporary
//! directory for the test case, and it stages fixture files into that
//! directory. A scene is a mutable builder until it is materialized into
//! an immutable settings snapshot; materialization happens at most once,
//! and every later builder call faults.

use vstd::prelude::*;

use crate::atpath::{join_path, join_under, AtPath};
use crate::fault::Fault;
use crate::fixtures::{clone_string_vec, plan_of, staging_plan, FixtureTree, StageOp};
use crate::settings::{SceneSettings, SettingsModel};
use crate::sys::{canonicalize_str, temp_dir_new, temp_dir_path_string};
use crate::text::first_path_segment;
use crate::ucommand::{args_steps, lemma_args_steps_append, new_command, UCommand};

verus! {

/// The build-environment configuration a scene resolves the binary
/// against: the colon-separated library search path whose first entry is
/// the build output directory holding the binaries under test. Populated
/// once at process start, rather than read from the process environment
/// during materialization.
pub struct BuildEnv {
    pub library_path: String,
}

/// The mutable configuration of a scene before materialization.
pub struct SceneBuilder {
    pub debug_bin_subpath: String,
    pub fixtroot_fixture_subpath: Option<String>,
    pub repo_fixtroot_subpath: Option<String>,
    pub subcmd_args: Option<Vec<String>>,
    pub multicall: Option<String>,
}

pub ghost struct BuilderModel {
    pub debug_bin_subpath: Seq<char>,
    pub fixtroot_fixture_subpath: Option<Seq<char>>,
    pub repo_fixtroot_subpath: Option<Seq<char>>,
    pub subcmd_args: Option<Seq<Seq<char>>>,
    pub multicall: Option<Seq<char>>,
}

impl View for SceneBuilder {
    type V = BuilderModel;

    open spec fn view(&self) -> BuilderModel {
        BuilderModel {
            debug_bin_subpath: self.debug_bin_subpath@,
            fixtroot_fixture_subpath: self.fixtroot_fixture_subpath.deep_view(),
            repo_fixtroot_subpath: self.repo_fixtroot_subpath.deep_view(),
            subcmd_args: self.subcmd_args.deep_view(),
            multicall: self.multicall.deep_view(),
        }
    }
}

pub enum SceneState {
    Building(SceneBuilder),
    Ready(SceneSettings),
}

pub ghost enum SceneModel {
    Building(BuilderModel),
    Ready(SettingsModel),
}

impl View for SceneState {
    type V = SceneModel;

    open spec fn view(&self) -> SceneModel {
        match self {
            SceneState::Building(b) => SceneModel::Building(b@),
            SceneState::Ready(s) => SceneModel::Ready(s@),
        }
    }
}

/// A scene: a builder until first materialized, an immutable settings
/// snapshot afterwards. The transition is one-way.
pub struct Scene {
    state: SceneState,
}

impl View for Scene {
    type V = SceneModel;

    closed spec fn view(&self) -> SceneModel {
        self.state@
    }
}

/// The builder a fresh scene starts from: only the binary subpath is
/// configured.
pub open spec fn initial_builder(bin_subpath: Seq<char>) -> BuilderModel {
    BuilderModel {
        debug_bin_subpath: bin_subpath,
        fixtroot_fixture_subpath: None,
        repo_fixtroot_subpath: None,
        subcmd_args: None,
        multicall: None,
    }
}

/// The fixture root a builder resolves against: the configured override,
/// or `tests/fixtures`.
pub open spec fn fixture_root_of(b: BuilderModel) -> Seq<char> {
    match b.repo_fixtroot_subpath {
        Some(root) => root,
        None => "tests/fixtures"@,
    }
}

/// The resolved fixture source path: the fixture root, then a
/// subdirectory named after the multicall subcommand when one is set,
/// then the configured subdirectory suffix when one is set.
pub open spec fn resolve_fixture_path(b: BuilderModel) -> Seq<char> {
    let with_mc = match b.multicall {
        Some(m) => join_path(fixture_root_of(b), m),
        None => fixture_root_of(b),
    };
    match b.fixtroot_fixture_subpath {
        Some(sub) => join_path(with_mc, sub),
        None => with_mc,
    }
}

/// The resolved prefix argument list: the configured arguments, with the
/// multicall subcommand inserted first when one is set.
pub open spec fn resolve_args(b: BuilderModel) -> Seq<Seq<char>> {
    let base = match b.subcmd_args {
        Some(a) => a,
        None => Seq::<Seq<char>>::empty(),
    };
    match b.multicall {
        Some(m) => seq![m] + base,
        None => base,
    }
}

/// For every configured multicall subcommand name `s`: the resolved
/// prefix argument list — the list `default_invocation`/`ucmd` seeds a
/// fresh invocation with — begins with `s`, and the resolved fixture
/// source path appends to the fixture root a subdirectory literally
/// named `s` (before any configured subdirectory suffix).
pub proof fn lemma_multicall_resolution(b: BuilderModel, s: Seq<char>)
    requires
        b.multicall == Some(s),
        s.len() > 0,
        s[0] != '/',
        fixture_root_of(b).len() > 0,
        fixture_root_of(b)[fixture_root_of(b).len() - 1] != '/',
    ensures
        resolve_args(b).len() >= 1,
        resolve_args(b)[0] == s,
        b.fixtroot_fixture_subpath is None ==> resolve_fixture_path(b) == fixture_root_of(b)
            + seq!['/'] + s,
        b.fixtroot_fixture_subpath matches Some(sub) ==> resolve_fixture_path(b) == join_path(
            fixture_root_of(b) + seq!['/'] + s,
            sub,
        ),
{
}

fn resolve_fixture_path_exec(b: &SceneBuilder) -> (r: String)
    ensures
        r@ == resolve_fixture_path(b@),
{
    let root: String = match &b.repo_fixtroot_subpath {
        Some(r) => r.clone(),
        None => "tests/fixtures".to_owned(),
    };
    let with_mc: String = match &b.multicall {
        Some(m) => join_under(root.as_str(), m.as_str()),
        None => root,
    };
    match &b.fixtroot_fixture_subpath {
        Some(sub) => join_under(with_mc.as_str(), sub.as_str()),
        None => with_mc,
    }
}

fn resolve_args_exec(b: &SceneBuilder) -> (r: Vec<String>)
    ensures
        r.deep_view() == resolve_args(b@),
{
    let mut base: Vec<String> = match &b.subcmd_args {
        Some(a) => clone_string_vec(a),
        None => Vec::new(),
    };
    let ghost base0 = base.deep_view();
    proof {
        assert(base0 == match b@.subcmd_args {
            Some(a) => a,
            None => Seq::<Seq<char>>::empty(),
        });
    }
    match &b.multicall {
        Some(m) => {
            base.insert(0, m.clone());
            proof {
                assert(base.deep_view() =~= seq![m@] + base0);
            }
        },
        None => {},
    }
    base
}

impl Scene {
    /// A fresh scene for the binary at `bin_subpath` below the build
    /// output directory.
    pub fn new(bin_subpath: &str) -> (r: Scene)
        ensures
            r@ == SceneModel::Building(initial_builder(bin_subpath@)),
    {
        Scene {
            state: SceneState::Building(
                SceneBuilder {
                    debug_bin_subpath: bin_subpath.to_owned(),
                    fixtroot_fixture_subpath: None,
                    repo_fixtroot_subpath: None,
                    subcmd_args: None,
                    multicall: None,
                },
            ),
        }
    }

    /// Overrides the default fixture root. Faults when the root was
    /// already set, or when the scene is already materialized.
    pub fn fixtures_root(&mut self, root: &str) -> (r: Result<(), Fault>)
        ensures
            old(self)@ is Ready ==> r == Err::<(), Fault>(Fault::AlreadyInstantiated)
                && final(self)@ == old(self)@,
            old(self)@ matches SceneModel::Building(b) ==> if b.repo_fixtroot_subpath is Some {
                r == Err::<(), Fault>(Fault::FixtureRootSetTwice) && final(self)@ == old(self)@
            } else {
                r == Ok::<(), Fault>(()) && final(self)@ == SceneModel::Building(
                    (BuilderModel { repo_fixtroot_subpath: Some(root@), ..b }),
                )
            },
    {
        match &mut self.state {
            SceneState::Ready(_) => Err(Fault::AlreadyInstantiated),
            SceneState::Building(b) => {
                if b.repo_fixtroot_subpath.is_some() {
                    Err(Fault::FixtureRootSetTwice)
                } else {
                    b.repo_fixtroot_subpath = Some(root.to_owned());
                    Ok(())
                }
            },
        }
    }

    /// Appends a subdirectory to the fixture path suffix. Faults when
    /// the scene is already materialized.
    pub fn fixtures_subdir(&mut self, subdirs: &str) -> (r: Result<(), Fault>)
        ensures
            old(self)@ is Ready ==> r == Err::<(), Fault>(Fault::AlreadyInstantiated)
                && final(self)@ == old(self)@,
            old(self)@ matches SceneModel::Building(b) ==> r == Ok::<(), Fault>(()) && final(self)@
                == SceneModel::Building(
                (BuilderModel {
                    fixtroot_fixture_subpath: Some(
                        match b.fixtroot_fixture_subpath {
                            Some(existing) => join_path(existing, subdirs@),
                            None => subdirs@,
                        },
                    ),
                    ..b
                }),
            ),
    {
        match &mut self.state {
            SceneState::Ready(_) => Err(Fault::AlreadyInstantiated),
            SceneState::Building(b) => {
                let updated: String = match &b.fixtroot_fixture_subpath {
                    Some(existing) => join_under(existing.as_str(), subdirs),
                    None => subdirs.to_owned(),
                };
                b.fixtroot_fixture_subpath = Some(updated);
                Ok(())
            },
        }
    }

    /// Configures the multicall subcommand: a toolkit binary dispatches
    /// on its first argument, and fixtures for a subcommand live in a
    /// subdirectory named after it, so resolution both inserts the name
    /// first in the prefix arguments and appends it to the fixture path.
    /// Faults when a subcommand was already set, or when the scene is
    /// already materialized.
    pub fn multicall(&mut self, subcmd_arg: &str) -> (r: Result<(), Fault>)
        ensures
            old(self)@ is Ready ==> r == Err::<(), Fault>(Fault::AlreadyInstantiated)
                && final(self)@ == old(self)@,
            old(self)@ matches SceneModel::Building(b) ==> if b.multicall is Some {
                r == Err::<(), Fault>(Fault::MulticallSetTwice) && final(self)@ == old(self)@
            } else {
                r == Ok::<(), Fault>(()) && final(self)@ == SceneModel::Building(
                    (BuilderModel { multicall: Some(subcmd_arg@), ..b }),
                )
            },
    {
        match &mut self.state {
            SceneState::Ready(_) => Err(Fault::AlreadyInstantiated),
            SceneState::Building(b) => {
                if b.multicall.is_some() {
                    Err(Fault::MulticallSetTwice)
                } else {
                    b.multicall = Some(subcmd_arg.to_owned());
                    Ok(())
                }
            },
        }
    }

    /// Appends one prefix argument. Faults when the scene is already
    /// materialized.
    pub fn subcmd_arg(&mut self, added_arg: &str) -> (r: Result<(), Fault>)
        ensures
            old(self)@ is Ready ==> r == Err::<(), Fault>(Fault::AlreadyInstantiated)
                && final(self)@ == old(self)@,
            old(self)@ matches SceneModel::Building(b) ==> r == Ok::<(), Fault>(()) && final(self)@
                == SceneModel::Building(
                (BuilderModel {
                    subcmd_args: Some(
                        match b.subcmd_args {
                            Some(existing) => existing.push(added_arg@),
                            None => seq![added_arg@],
                        },
                    ),
                    ..b
                }),
            ),
    {
        match &mut self.state {
            SceneState::Ready(_) => Err(Fault::AlreadyInstantiated),
            SceneState::Building(b) => {
                match &mut b.subcmd_args {
                    Some(existing) => {
                        existing.push(added_arg.to_owned());
                        proof {
                            assert(b.subcmd_args.deep_view() matches Some(s) && s =~= match old(
                                self,
                            )@->Building_0.subcmd_args {
                                Some(e) => e.push(added_arg@),
                                None => seq![added_arg@],
                            });
                        }
                    },
                    None => {
                        let mut fresh: Vec<String> = Vec::new();
                        fresh.push(added_arg.to_owned());
                        b.subcmd_args = Some(fresh);
                        proof {
                            assert(b.subcmd_args.deep_view() matches Some(s) && s
                                =~= seq![added_arg@]);
                        }
                    },
                }
                Ok(())
            },
        }
    }

    /// Appends each of `added_args` to the prefix arguments. Faults when
    /// the scene is already materialized.
    pub fn subcmd_args(&mut self, added_args: &Vec<String>) -> (r: Result<(), Fault>)
        ensures
            old(self)@ is Ready ==> r == Err::<(), Fault>(Fault::AlreadyInstantiated)
                && final(self)@ == old(self)@,
            old(self)@ matches SceneModel::Building(b) ==> r == Ok::<(), Fault>(()) && final(self)@
                == SceneModel::Building(
                (BuilderModel {
                    subcmd_args: Some(
                        match b.subcmd_args {
                            Some(existing) => existing + added_args.deep_view(),
                            None => added_args.deep_view(),
                        },
                    ),
                    ..b
                }),
            ),
    {
        match &mut self.state {
            SceneState::Ready(_) => Err(Fault::AlreadyInstantiated),
            SceneState::Building(b) => {
                match &mut b.subcmd_args {
                    Some(existing) => {
                        let mut copied = clone_string_vec(added_args);
                        existing.append(&mut copied);
                        proof {
                            assert(b.subcmd_args.deep_view() matches Some(s) && s =~= match old(
                                self,
                            )@->Building_0.subcmd_args {
                                Some(e) => e + added_args.deep_view(),
                                None => added_args.deep_view(),
                            });
                        }
                    },
                    None => {
                        b.subcmd_args = Some(clone_string_vec(added_args));
                    },
                }
                Ok(())
            },
        }
    }

    /// Whether the scene has been materialized.
    pub fn is_materialized(&self) -> (r: bool)
        ensures
            r == (self@ is Ready),
    {
        match &self.state {
            SceneState::Ready(_) => true,
            SceneState::Building(_) => false,
        }
    }

    /// The settings snapshot, once the scene is materialized.
    pub fn settings(&self) -> (r: Option<&SceneSettings>)
        ensures
            self@ is Ready <==> r is Some,
            r matches Some(s) ==> self@ == SceneModel::Ready(s@),
    {
        match &self.state {
            SceneState::Ready(s) => Some(s),
            SceneState::Building(_) => None,
        }
    }

    /// Where the fixture source tree for this scene is expected: the
    /// resolved fixture source path of the builder, or the one recorded
    /// in the settings once materialized.
    pub fn fixture_source(&self) -> (r: String)
        ensures
            self@ matches SceneModel::Building(b) ==> r@ == resolve_fixture_path(b),
            self@ matches SceneModel::Ready(s) ==> r@ == s.repo_fixtures_path,
    {
        match &self.state {
            SceneState::Building(b) => resolve_fixture_path_exec(b),
            SceneState::Ready(s) => s.repo_fixtures_path.clone(),
        }
    }

    /// Materializes the scene: resolves the binary path against the
    /// build environment, resolves the fixture source path and the
    /// prefix arguments, creates a fresh sandbox root, and freezes the
    /// result as the scene's settings. `fixtures` is the fixture tree
    /// read from the resolved fixture source path, and `None` when that
    /// path is missing or is not a directory — a broken test
    /// environment, which faults. The returned staging plan copies the
    /// whole tree below the sandbox root; a scene that is already
    /// materialized returns its memoized snapshot untouched and an empty
    /// plan, so fixtures are never copied twice.
    pub fn materialize(&mut self, env: &BuildEnv, fixtures: Option<FixtureTree>) -> (r: Result<
        Vec<StageOp>,
        Fault,
    >)
        ensures
            old(self)@ is Ready ==> final(self)@ == old(self)@ && (r matches Ok(plan) && plan@.len()
                == 0),
            r is Err ==> final(self)@ == old(self)@,
            old(self)@ is Building ==> (fixtures is None <==> r == Err::<Vec<StageOp>, Fault>(
                Fault::FixturesMissing,
            )),
            old(self)@ is Building && r is Err ==> (r == Err::<Vec<StageOp>, Fault>(
                Fault::FixturesMissing,
            ) || r == Err::<Vec<StageOp>, Fault>(Fault::BinaryUnresolved) || r == Err::<
                Vec<StageOp>,
                Fault,
            >(Fault::TempDirUnavailable)),
            old(self)@ matches SceneModel::Building(b) ==> (r is Ok ==> (fixtures matches Some(
                tree,
            ) && final(self)@ matches SceneModel::Ready(s) && s.subcmd_args == resolve_args(b)
                && s.repo_fixtures_path == resolve_fixture_path(b) && s.staged == tree@
                && s.tmp_root.len() > 0 && s.tmp_root[s.tmp_root.len() - 1] != '/' && (
            r matches Ok(plan) && plan@.map_values(|op: StageOp| op@) == plan_of(
                tree@,
                s.tmp_root,
            )))),
    {
        match &self.state {
            SceneState::Ready(_) => {
                return Ok(Vec::new());
            },
            SceneState::Building(_) => {},
        }
        let tree = match fixtures {
            Some(t) => t,
            None => {
                return Err(Fault::FixturesMissing);
            },
        };
        let (settings, plan) = match &self.state {
            SceneState::Ready(_) => {
                proof {
                    assert(false);
                }
                return Err(Fault::FixturesMissing);
            },
            SceneState::Building(b) => {
                let seg = first_path_segment(env.library_path.as_str());
                let bin_unresolved = join_under(seg.as_str(), b.debug_bin_subpath.as_str());
                let bin_path = match canonicalize_str(bin_unresolved.as_str()) {
                    Some(p) => p,
                    None => {
                        return Err(Fault::BinaryUnresolved);
                    },
                };
                let fixp = resolve_fixture_path_exec(b);
                let args = resolve_args_exec(b);
                let tmpd = match temp_dir_new("second_law") {
                    Some(t) => t,
                    None => {
                        return Err(Fault::TempDirUnavailable);
                    },
                };
                let tmp_root = match temp_dir_path_string(&tmpd) {
                    Some(p) => p,
                    None => {
                        return Err(Fault::TempDirUnavailable);
                    },
                };
                let plan = staging_plan(&tree, tmp_root.as_str());
                let settings = SceneSettings {
                    debug_bin_path: bin_path,
                    repo_fixtures_path: fixp,
                    subcmd_args: args,
                    tmp_root,
                    staged: tree,
                    tmpd,
                };
                (settings, plan)
            },
        };
        self.state = SceneState::Ready(settings);
        Ok(plan)
    }

    /// A fresh invocation of the resolved binary, seeded with the
    /// resolved prefix arguments (the multicall subcommand first, when
    /// one is set), working in the sandbox root with a cleared
    /// environment. Faults until the scene is materialized.
    pub fn ucmd(&self) -> (r: Result<UCommand, Fault>)
        ensures
            self@ is Building ==> r == Err::<UCommand, Fault>(Fault::NotMaterialized),
            self@ matches SceneModel::Ready(s) ==> (r matches Ok(c) && c@ == args_steps(
                new_command(s.debug_bin_path, s, true, None),
                s.subcmd_args,
            ) && c@.args == s.subcmd_args),
    {
        match &self.state {
            SceneState::Building(_) => Err(Fault::NotMaterialized),
            SceneState::Ready(s) => {
                let mut c = UCommand::new(s.debug_bin_path.as_str(), s, true, None);
                let _ = c.args(&s.subcmd_args);
                proof {
                    lemma_args_steps_append(
                        new_command(s@.debug_bin_path, s@, true, None),
                        s@.subcmd_args,
                    );
                    assert(Seq::<Seq<char>>::empty() + s@.subcmd_args =~= s@.subcmd_args);
                }
                Ok(c)
            },
        }
    }

    /// A fresh invocation of the binary `bin`, working in the sandbox
    /// root with a cleared environment and no seeded arguments. Faults
    /// until the scene is materialized.
    pub fn cmd(&self, bin: &str) -> (r: Result<UCommand, Fault>)
        ensures
            self@ is Building ==> r == Err::<UCommand, Fault>(Fault::NotMaterialized),
            self@ matches SceneModel::Ready(s) ==> (r matches Ok(c) && c@ == new_command(
                bin@,
                s,
                true,
                None,
            )),
    {
        match &self.state {
            SceneState::Building(_) => Err(Fault::NotMaterialized),
            SceneState::Ready(s) => Ok(UCommand::new(bin, s, true, None)),
        }
    }

    /// Like `ucmd`, but the child keeps the caller's environment; the
    /// need for this is exceedingly rare.
    pub fn ucmd_keepenv(&self) -> (r: Result<UCommand, Fault>)
        ensures
            self@ is Building ==> r == Err::<UCommand, Fault>(Fault::NotMaterialized),
            self@ matches SceneModel::Ready(s) ==> (r matches Ok(c) && c@ == args_steps(
                new_command(s.debug_bin_path, s, false, None),
                s.subcmd_args,
            ) && c@.args == s.subcmd_args),
    {
        match &self.state {
            SceneState::Building(_) => Err(Fault::NotMaterialized),
            SceneState::Ready(s) => {
                let mut c = UCommand::new(s.debug_bin_path.as_str(), s, false, None);
                let _ = c.args(&s.subcmd_args);
                proof {
                    lemma_args_steps_append(
                        new_command(s@.debug_bin_path, s@, false, None),
                        s@.subcmd_args,
                    );
                    assert(Seq::<Seq<char>>::empty() + s@.subcmd_args =~= s@.subcmd_args);
                }
                Ok(c)
            },
        }
    }

    /// Like `cmd`, but the child keeps the caller's environment.
    pub fn cmd_keepenv(&self, bin: &str) -> (r: Result<UCommand, Fault>)
        ensures
            self@ is Building ==> r == Err::<UCommand, Fault>(Fault::NotMaterialized),
            self@ matches SceneModel::Ready(s) ==> (r matches Ok(c) && c@ == new_command(
                bin@,
                s,
                false,
                None,
            )),
    {
        match &self.state {
            SceneState::Building(_) => Err(Fault::NotMaterialized),
            SceneState::Ready(s) => Ok(UCommand::new(bin, s, false, None)),
        }
    }

    /// A path view bound to the sandbox root. Faults until the scene is
    /// materialized.
    pub fn working_dir(&self) -> (r: Result<AtPath, Fault>)
        ensures
            self@ is Building ==> r == Err::<AtPath, Fault>(Fault::NotMaterialized),
            self@ matches SceneModel::Ready(s) ==> (r matches Ok(p) && p.subdir@ == s.tmp_root),
    {
        match &self.state {
            SceneState::Building(_) => Err(Fault::NotMaterialized),
            SceneState::Ready(s) => Ok(AtPath::from_path(s.tmp_root.as_str())),
        }
    }
}

} // verus!

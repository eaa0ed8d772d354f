//! A harness library for integration-testing command-line executables of a
//! multicall toolkit: a sandboxed path abstraction confined to one root
//! directory, a one-shot scene builder that resolves binary and fixture
//! locations into an immutable settings snapshot, a single-use process
//! invocation builder, and a captured execution result with trim-aware
//! comparison helpers.

mod atpath;
mod cmdresult;
mod fault;
mod fixtures;
mod scene;
mod settings;
mod sys;
mod text;
mod ucommand;

pub use atpath::{strip_verbatim_marker, AtPath};
pub use cmdresult::CmdResult;
pub use fault::Fault;
pub use fixtures::{read_scenario_fixture, FixtureFile, FixtureTree, StageOp};
pub use scene::{BuildEnv, Scene};
pub use settings::SceneSettings;
pub use ucommand::{SpawnRequest, UCommand};

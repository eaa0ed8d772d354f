//! The immutable settings snapshot a scene materializes into: the
//! resolved binary path, the resolved fixture source path, the prefix
//! argument list, the sandbox root, and the staged fixture tree. The
//! snapshot also owns the sandbox's temporary directory, which is deleted
//! when the snapshot is dropped.

use vstd::prelude::*;

use crate::fixtures::{FixtureTree, FixtureTreeModel};

verus! {

/// An immutable snapshot of a materialized scene.
pub struct SceneSettings {
    pub debug_bin_path: String,
    pub repo_fixtures_path: String,
    pub subcmd_args: Vec<String>,
    pub tmp_root: String,
    pub staged: FixtureTree,
    pub tmpd: tempdir::TempDir,
}

pub ghost struct SettingsModel {
    pub debug_bin_path: Seq<char>,
    pub repo_fixtures_path: Seq<char>,
    pub subcmd_args: Seq<Seq<char>>,
    pub tmp_root: Seq<char>,
    pub staged: FixtureTreeModel,
}

impl View for SceneSettings {
    type V = SettingsModel;

    open spec fn view(&self) -> SettingsModel {
        SettingsModel {
            debug_bin_path: self.debug_bin_path@,
            repo_fixtures_path: self.repo_fixtures_path@,
            subcmd_args: self.subcmd_args.deep_view(),
            tmp_root: self.tmp_root@,
            staged: self.staged@,
        }
    }
}

} // verus!

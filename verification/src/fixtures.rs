//! Fixture trees. A fixture source directory is modelled as the list of
//! its directories and of its files with their bytes, each named by a
//! root-relative path. Staging materializes such a tree under a sandbox
//! root as a plan of directory creations followed by byte-for-byte file
//! writes.

use vstd::prelude::*;
use vstd::utf8::{decode_utf8, valid_utf8};

use crate::atpath::{join_path, join_under};
use crate::fault::Fault;
use crate::settings::SceneSettings;
use crate::sys::bytes_to_string;
use crate::text::str_eq;

verus! {

/// One file of a fixture tree: its path relative to the tree's root and
/// its bytes.
pub struct FixtureFile {
    pub path: String,
    pub contents: Vec<u8>,
}

pub ghost struct FixtureFileModel {
    pub path: Seq<char>,
    pub contents: Seq<u8>,
}

impl View for FixtureFile {
    type V = FixtureFileModel;

    open spec fn view(&self) -> FixtureFileModel {
        FixtureFileModel { path: self.path@, contents: self.contents@ }
    }
}

/// A fixture source tree: the directories below its root (each listed
/// before anything inside it) and its files.
pub struct FixtureTree {
    pub dirs: Vec<String>,
    pub files: Vec<FixtureFile>,
}

pub ghost struct FixtureTreeModel {
    pub dirs: Seq<Seq<char>>,
    pub files: Seq<FixtureFileModel>,
}

impl View for FixtureTree {
    type V = FixtureTreeModel;

    open spec fn view(&self) -> FixtureTreeModel {
        FixtureTreeModel {
            dirs: self.dirs.deep_view(),
            files: Seq::new(self.files@.len(), |i: int| self.files@[i]@),
        }
    }
}

/// The bytes of the first file named `path` in `files`, if any.
pub open spec fn find_file(files: Seq<FixtureFileModel>, path: Seq<char>) -> Option<Seq<u8>>
    decreases files.len(),
{
    if files.len() == 0 {
        None
    } else if files[0].path == path {
        Some(files[0].contents)
    } else {
        find_file(files.drop_first(), path)
    }
}

proof fn lemma_find_file_skip(files: Seq<FixtureFileModel>, path: Seq<char>, i: int)
    requires
        0 <= i <= files.len(),
        forall|j: int| 0 <= j < i ==> files[j].path != path,
    ensures
        find_file(files, path) == find_file(files.skip(i), path),
    decreases i,
{
    if i > 0 {
        assert(files.drop_first().skip(i - 1) =~= files.skip(i));
        lemma_find_file_skip(files.drop_first(), path, i - 1);
    } else {
        assert(files.skip(0) =~= files);
    }
}

pub(crate) fn clone_bytes(v: &Vec<u8>) -> (r: Vec<u8>)
    ensures
        r@ == v@,
{
    let mut r: Vec<u8> = Vec::new();
    let n = v.len();
    let mut i: usize = 0;
    while i < n
        invariant
            i <= n,
            n == v@.len(),
            r@ == v@.take(i as int),
        decreases n - i,
    {
        r.push(v[i]);
        proof {
            assert(v@.take(i + 1 as int) =~= v@.take(i as int).push(v@[i as int]));
        }
        i = i + 1;
    }
    proof {
        assert(v@.take(n as int) =~= v@);
    }
    r
}

pub(crate) fn clone_string_vec(v: &Vec<String>) -> (r: Vec<String>)
    ensures
        r.deep_view() == v.deep_view(),
        r@.len() == v@.len(),
{
    let mut r: Vec<String> = Vec::new();
    let n = v.len();
    let mut i: usize = 0;
    while i < n
        invariant
            i <= n,
            n == v@.len(),
            r@.len() == i,
            forall|k: int| 0 <= k < i ==> r@[k]@ == v@[k]@,
        decreases n - i,
    {
        r.push(v[i].clone());
        i = i + 1;
    }
    proof {
        assert(r.deep_view() =~= v.deep_view());
    }
    r
}

impl FixtureFile {
    /// A copy with the same name and the same bytes.
    pub fn duplicate(&self) -> (r: FixtureFile)
        ensures
            r@ == self@,
    {
        FixtureFile { path: self.path.clone(), contents: clone_bytes(&self.contents) }
    }
}

impl FixtureTree {
    /// An empty tree: no directories, no files.
    pub fn new() -> (r: FixtureTree)
        ensures
            r@.dirs =~= Seq::<Seq<char>>::empty(),
            r@.files =~= Seq::<FixtureFileModel>::empty(),
    {
        FixtureTree { dirs: Vec::new(), files: Vec::new() }
    }

    /// Records one directory of the tree.
    pub fn add_dir(&mut self, path: String)
        ensures
            final(self)@.dirs =~= old(self)@.dirs.push(path@),
            final(self)@.files == old(self)@.files,
    {
        self.dirs.push(path);
        proof {
            assert(self@.files =~= old(self)@.files);
        }
    }

    /// Records one file of the tree with its bytes.
    pub fn add_file(&mut self, path: String, contents: Vec<u8>)
        ensures
            final(self)@.files =~= old(self)@.files.push(
                FixtureFileModel { path: path@, contents: contents@ },
            ),
            final(self)@.dirs == old(self)@.dirs,
    {
        let ghost gpath = path@;
        let ghost gcontents = contents@;
        self.files.push(FixtureFile { path, contents });
        proof {
            assert(self@.files =~= old(self)@.files.push(
                FixtureFileModel { path: gpath, contents: gcontents },
            ));
            assert(self@.dirs =~= old(self)@.dirs);
        }
    }

    /// A copy with the same directories and the same files.
    pub fn duplicate(&self) -> (r: FixtureTree)
        ensures
            r@ == self@,
    {
        let dirs = clone_string_vec(&self.dirs);
        let mut files: Vec<FixtureFile> = Vec::new();
        let n = self.files.len();
        let mut i: usize = 0;
        while i < n
            invariant
                i <= n,
                n == self.files@.len(),
                files@.len() == i,
                forall|k: int| 0 <= k < i ==> files@[k]@ == self.files@[k]@,
            decreases n - i,
        {
            files.push(self.files[i].duplicate());
            i = i + 1;
        }
        let r = FixtureTree { dirs, files };
        proof {
            assert(r@.files =~= self@.files);
        }
        r
    }

    /// The bytes of the staged file named `rel_path`, if one is staged.
    pub fn fixture_bytes(&self, rel_path: &str) -> (r: Option<Vec<u8>>)
        ensures
            r matches Some(b) ==> find_file(self@.files, rel_path@) == Some(b@),
            r is None ==> find_file(self@.files, rel_path@) is None,
    {
        let n = self.files.len();
        let mut i: usize = 0;
        while i < n
            invariant
                i <= n,
                n == self.files@.len(),
                forall|j: int| 0 <= j < i ==> self@.files[j].path != rel_path@,
            decreases n - i,
    {
            if str_eq(self.files[i].path.as_str(), rel_path) {
                let b = clone_bytes(&self.files[i].contents);
                proof {
                    lemma_find_file_skip(self@.files, rel_path@, i as int);
                    assert(self@.files.skip(i as int)[0] == self@.files[i as int]);
                }
                return Some(b);
            }
            i = i + 1;
        }
        proof {
            lemma_find_file_skip(self@.files, rel_path@, n as int);
            assert(self@.files.skip(n as int) =~= Seq::<FixtureFileModel>::empty());
        }
        None
    }
}

/// The staged fixture file `rel_path` decoded as text.
pub(crate) fn fixture_text(tree: &FixtureTree, rel_path: &str) -> (r: Result<String, Fault>)
    ensures
        find_file(tree@.files, rel_path@) is None ==> r == Err::<String, Fault>(
            Fault::FixtureAbsent,
        ),
        find_file(tree@.files, rel_path@) matches Some(b) ==> if valid_utf8(b) {
            r matches Ok(s) && s@ == decode_utf8(b)
        } else {
            r == Err::<String, Fault>(Fault::NonTextOutput)
        },
{
    match tree.fixture_bytes(rel_path) {
        None => Err(Fault::FixtureAbsent),
        Some(b) => match bytes_to_string(b) {
            None => Err(Fault::NonTextOutput),
            Some(s) => Ok(s),
        },
    }
}

/// Reads the staged fixture file named `file_rel_path` from the sandbox
/// of `settings` as text. The file must have been staged from the fixture
/// source tree at materialization.
pub fn read_scenario_fixture(settings: &SceneSettings, file_rel_path: &str) -> (r: Result<
    String,
    Fault,
>)
    ensures
        find_file(settings@.staged.files, file_rel_path@) is None ==> r == Err::<String, Fault>(
            Fault::FixtureAbsent,
        ),
        find_file(settings@.staged.files, file_rel_path@) matches Some(b) ==> if valid_utf8(b) {
            r matches Ok(s) && s@ == decode_utf8(b)
        } else {
            r == Err::<String, Fault>(Fault::NonTextOutput)
        },
{
    fixture_text(&settings.staged, file_rel_path)
}

/// One step of fixture staging: create a directory or write a file's
/// bytes, each at an absolute path under the sandbox root.
#[derive(Clone, Debug, PartialEq, Eq)]
pub enum StageOp {
    MakeDir(String),
    WriteFile(String, Vec<u8>),
}

pub ghost enum StageOpModel {
    MakeDir(Seq<char>),
    WriteFile(Seq<char>, Seq<u8>),
}

impl View for StageOp {
    type V = StageOpModel;

    open spec fn view(&self) -> StageOpModel {
        match self {
            StageOp::MakeDir(p) => StageOpModel::MakeDir(p@),
            StageOp::WriteFile(p, b) => StageOpModel::WriteFile(p@, b@),
        }
    }
}

/// The staging plan for `tree` under the root `dest`: every directory of
/// the tree created under `dest` in order, then every file written under
/// `dest` with exactly its bytes.
pub open spec fn plan_of(tree: FixtureTreeModel, dest: Seq<char>) -> Seq<StageOpModel> {
    Seq::new(tree.dirs.len(), |i: int| StageOpModel::MakeDir(join_path(dest, tree.dirs[i])))
        + Seq::new(
        tree.files.len(),
        |i: int| StageOpModel::WriteFile(join_path(dest, tree.files[i].path), tree.files[i].contents),
    )
}

/// Computes the staging plan for `tree` under the root `dest`.
pub fn staging_plan(tree: &FixtureTree, dest: &str) -> (r: Vec<StageOp>)
    ensures
        r@.map_values(|op: StageOp| op@) == plan_of(tree@, dest@),
{
    let mut plan: Vec<StageOp> = Vec::new();
    let nd = tree.dirs.len();
    let mut i: usize = 0;
    while i < nd
        invariant
            i <= nd,
            nd == tree.dirs@.len(),
            plan@.len() == i,
            forall|k: int| 0 <= k < i ==> plan@[k]@ == StageOpModel::MakeDir(
                join_path(dest@, tree@.dirs[k]),
            ),
        decreases nd - i,
    {
        let p = join_under(dest, tree.dirs[i].as_str());
        plan.push(StageOp::MakeDir(p));
        i = i + 1;
    }
    let nf = tree.files.len();
    let mut j: usize = 0;
    while j < nf
        invariant
            j <= nf,
            nf == tree.files@.len(),
            nd == tree.dirs@.len(),
            plan@.len() == nd + j,
            forall|k: int| 0 <= k < nd ==> plan@[k]@ == StageOpModel::MakeDir(
                join_path(dest@, tree@.dirs[k]),
            ),
            forall|k: int| 0 <= k < j ==> plan@[nd + k]@ == StageOpModel::WriteFile(
                join_path(dest@, tree@.files[k].path),
                tree@.files[k].contents,
            ),
        decreases nf - j,
    {
        let p = join_under(dest, tree.files[j].path.as_str());
        let b = clone_bytes(&tree.files[j].contents);
        plan.push(StageOp::WriteFile(p, b));
        j = j + 1;
    }
    proof {
        assert(plan@.map_values(|op: StageOp| op@) =~= plan_of(tree@, dest@));
    }
    plan
}

/// Fixture staging is a full recursive, content-preserving copy: the plan
/// for a tree creates every directory of the tree under the destination
/// root, writes every file of the tree under the destination root with
/// exactly the bytes the tree holds for it, and orders every directory
/// creation before every file write.
pub proof fn lemma_plan_preserves_tree(tree: FixtureTreeModel, dest: Seq<char>)
    ensures
        plan_of(tree, dest).len() == tree.dirs.len() + tree.files.len(),
        forall|i: int| 0 <= i < tree.dirs.len() ==> plan_of(tree, dest)[i]
            == StageOpModel::MakeDir(join_path(dest, tree.dirs[i])),
        forall|i: int| 0 <= i < tree.files.len() ==> plan_of(tree, dest)[tree.dirs.len() + i]
            == StageOpModel::WriteFile(join_path(dest, tree.files[i].path), tree.files[i].contents),
{
}

} // verus!

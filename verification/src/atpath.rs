//! A path view bound to one root directory. `plus` joins a relative name
//! under the root; `minus` strips the root prefix from an absolute path,
//! returning the path unchanged when it does not start with the root.
//! All path arithmetic is modelled on character sequences with `/` as the
//! separator.

use vstd::prelude::*;

use crate::sys::canonicalize_str;

verus! {

/// The sequence `root ++ name` as a single path: an absolute `name`
/// replaces the root, an empty root leaves `name` alone, and otherwise a
/// single `/` separates the two (none is added when the root already ends
/// with one).
pub open spec fn join_path(root: Seq<char>, name: Seq<char>) -> Seq<char> {
    if name.len() > 0 && name[0] == '/' {
        name
    } else if root.len() == 0 {
        name
    } else if root[root.len() - 1] == '/' {
        root + name
    } else {
        root + seq!['/'] + name
    }
}

/// Removes the leading `root` (and the separator after it) from `path`.
/// A `path` that does not start with the root component-wise is returned
/// unchanged; this is a normalization helper, not a security boundary.
pub open spec fn strip_root(root: Seq<char>, path: Seq<char>) -> Seq<char> {
    if path == root {
        Seq::<char>::empty()
    } else if path.len() > root.len() && path.subrange(0, root.len() as int) == root
        && path[root.len() as int] == '/' {
        path.subrange(root.len() as int + 1, path.len() as int)
    } else {
        path
    }
}

/// Joins `name` under `root`: the executable counterpart of `join_path`.
pub fn join_under(root: &str, name: &str) -> (r: String)
    ensures
        r@ == join_path(root@, name@),
{
    let name_len = name.unicode_len();
    if name_len > 0 && name.get_char(0) == '/' {
        return name.to_owned();
    }
    let root_len = root.unicode_len();
    if root_len == 0 {
        return name.to_owned();
    }
    if root.get_char(root_len - 1) == '/' {
        let mut r = root.to_owned();
        r.append(name);
        return r;
    }
    let mut r = root.to_owned();
    r.append("/");
    r.append(name);
    proof {
        reveal_strlit("/");
        assert(r@ =~= root@ + seq!['/'] + name@);
    }
    r
}

/// Object-oriented path struct that represents and operates on paths
/// relative to the directory it was constructed for.
pub struct AtPath {
    pub subdir: String,
}

impl AtPath {
    /// Binds a path view to the given root directory.
    pub fn from_path(subdir: &str) -> (r: AtPath)
        ensures
            r.subdir@ == subdir@,
    {
        AtPath { subdir: subdir.to_owned() }
    }

    /// Binds a path view to the given root directory, taking ownership.
    pub fn from_path_owned(subdir: String) -> (r: AtPath)
        ensures
            r.subdir@ == subdir@,
    {
        AtPath { subdir }
    }

    /// The bound root directory as a string.
    pub fn as_string(&self) -> (r: String)
        ensures
            r@ == self.subdir@,
    {
        self.subdir.clone()
    }

    /// Joins `name` under the bound root.
    pub fn plus(&self, name: &str) -> (r: String)
        ensures
            r@ == join_path(self.subdir@, name@),
    {
        join_under(self.subdir.as_str(), name)
    }

    /// Joins `name` under the bound root; same result as `plus`.
    pub fn plus_as_string(&self, name: &str) -> (r: String)
        ensures
            r@ == join_path(self.subdir@, name@),
    {
        self.plus(name)
    }

    /// Strips the bound root (and the separator after it) from `name`;
    /// returns `name` unchanged when it does not start with the root.
    pub fn minus(&self, name: &str) -> (r: String)
        ensures
            r@ == strip_root(self.subdir@, name@),
    {
        let root_len = self.subdir.as_str().unicode_len();
        let name_len = name.unicode_len();
        if name_len < root_len {
            return name.to_owned();
        }
        let mut i: usize = 0;
        while i < root_len
            invariant
                i <= root_len,
                root_len <= name_len,
                root_len == self.subdir@.len(),
                name_len == name@.len(),
                forall|j: int| 0 <= j < i ==> name@[j] == self.subdir@[j],
            decreases root_len - i,
        {
            if name.get_char(i) != self.subdir.as_str().get_char(i) {
                proof {
                    assert(name@ != self.subdir@);
                    if name@.len() > self.subdir@.len() {
                        assert(name@.subrange(0, root_len as int)[i as int] != self.subdir@[i as int]);
                    }
                }
                return name.to_owned();
            }
            i += 1;
        }
        if name_len == root_len {
            proof {
                assert(name@ =~= self.subdir@);
            }
            return String::new();
        }
        proof {
            assert(name@.subrange(0, root_len as int) =~= self.subdir@);
        }
        if name.get_char(root_len) == '/' {
            let r = name.substring_char(root_len + 1, name_len);
            return r.to_owned();
        }
        proof {
            assert(name@ != self.subdir@);
        }
        name.to_owned()
    }

    /// Strips the bound root from `name`; same result as `minus`.
    pub fn minus_as_string(&self, name: &str) -> (r: String)
        ensures
            r@ == strip_root(self.subdir@, name@),
    {
        self.minus(name)
    }

    /// The bound root directory, unresolved.
    pub fn root_dir(&self) -> (r: String)
        ensures
            r@ == self.subdir@,
    {
        self.subdir.clone()
    }

    /// Canonicalizes the bound root against the file system; platforms
    /// that prepend an extended-length path marker to canonicalized
    /// paths get the marker stripped, so that string-based path
    /// comparisons in tests stay platform-independent. None when
    /// canonicalization fails.
    pub fn root_dir_resolved(&self) -> (r: Option<String>)
        ensures
            r matches Some(p) ==> exists|c: Seq<char>| p@ == strip_verbatim_prefix(c),
    {
        match canonicalize_str(self.subdir.as_str()) {
            Some(c) => {
                let stripped = strip_verbatim_marker(c.as_str());
                proof {
                    assert(stripped@ == strip_verbatim_prefix(c@));
                }
                Some(stripped)
            },
            None => None,
        }
    }
}

/// `s` without the `\\?\` extended-length path marker that some
/// platforms prepend to canonicalized paths; `s` unchanged when the
/// marker is absent.
pub open spec fn strip_verbatim_prefix(s: Seq<char>) -> Seq<char> {
    if s.len() >= 4 && s[0] == '\\' && s[1] == '\\' && s[2] == '?' && s[3] == '\\' {
        s.skip(4)
    } else {
        s
    }
}

/// Removes the leading extended-length path marker, if present.
pub fn strip_verbatim_marker(s: &str) -> (r: String)
    ensures
        r@ == strip_verbatim_prefix(s@),
{
    let n = s.unicode_len();
    if n >= 4 && s.get_char(0) == '\\' && s.get_char(1) == '\\' && s.get_char(2) == '?'
        && s.get_char(3) == '\\' {
        let tail = s.substring_char(4, n);
        proof {
            assert(s@.subrange(4, n as int) =~= s@.skip(4));
        }
        tail.to_owned()
    } else {
        s.to_owned()
    }
}

/// Relativizing is a left inverse of joining: for a nonempty root without a
/// trailing separator and a relative name, stripping the root from the
/// joined path gives the name back.
pub proof fn lemma_minus_plus(root: Seq<char>, name: Seq<char>)
    requires
        root.len() > 0,
        root[root.len() - 1] != '/',
        name.len() == 0 || name[0] != '/',
    ensures
        strip_root(root, join_path(root, name)) == name,
{
    let p = join_path(root, name);
    assert(p == root + seq!['/'] + name);
    assert(p.len() == root.len() + 1 + name.len());
    assert(p.subrange(0, root.len() as int) =~= root);
    assert(p[root.len() as int] == '/');
    assert(p.subrange(root.len() as int + 1, p.len() as int) =~= name);
}

} // verus!

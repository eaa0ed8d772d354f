//! The captured outcome of one child-process run: the exit success flag
//! and the decoded stdout and stderr texts, with assertion helpers. Text
//! comparisons trim trailing — never leading — whitespace from both
//! sides before comparing.

use vstd::prelude::*;
use vstd::utf8::{decode_utf8, valid_utf8};

use crate::fault::Fault;
use crate::fixtures::{find_file, fixture_text, FixtureTree};
use crate::text::{trim_end_ws, trimmed_eq};

verus! {

/// A command result is the outputs of a command (streams and status
/// code) within a struct which has convenience assertion functions about
/// those outputs. It keeps the staged fixture tree for fixture-backed
/// comparisons.
pub struct CmdResult {
    pub success: bool,
    pub stdout: String,
    pub stderr: String,
    pub fixtures: FixtureTree,
}

impl CmdResult {
    /// Holds exactly when the command exited with a success (zero)
    /// status code.
    pub fn success(&self) -> (r: Result<(), Fault>)
        ensures
            r == if self.success {
                Ok::<(), Fault>(())
            } else {
                Err::<(), Fault>(Fault::AssertionFailed)
            },
    {
        if self.success {
            Ok(())
        } else {
            Err(Fault::AssertionFailed)
        }
    }

    /// Holds exactly when the command exited with a failure (non-zero)
    /// status code.
    pub fn failure(&self) -> (r: Result<(), Fault>)
        ensures
            r == if !self.success {
                Ok::<(), Fault>(())
            } else {
                Err::<(), Fault>(Fault::AssertionFailed)
            },
    {
        if !self.success {
            Ok(())
        } else {
            Err(Fault::AssertionFailed)
        }
    }

    /// Holds exactly when the command produced empty (zero-length)
    /// stderr stream output.
    pub fn no_stderr(&self) -> (r: Result<(), Fault>)
        ensures
            r == if self.stderr@.len() == 0 {
                Ok::<(), Fault>(())
            } else {
                Err::<(), Fault>(Fault::AssertionFailed)
            },
    {
        if self.stderr.as_str().unicode_len() == 0 {
            Ok(())
        } else {
            Err(Fault::AssertionFailed)
        }
    }

    /// Holds exactly when the command produced empty (zero-length)
    /// stdout stream output.
    pub fn no_stdout(&self) -> (r: Result<(), Fault>)
        ensures
            r == if self.stdout@.len() == 0 {
                Ok::<(), Fault>(())
            } else {
                Err::<(), Fault>(Fault::AssertionFailed)
            },
    {
        if self.stdout.as_str().unicode_len() == 0 {
            Ok(())
        } else {
            Err(Fault::AssertionFailed)
        }
    }

    /// Holds exactly when the stdout stream output equals `msg` once
    /// both are trimmed of trailing whitespace.
    pub fn stdout_is(&self, msg: &str) -> (r: Result<(), Fault>)
        ensures
            r == if trim_end_ws(self.stdout@) == trim_end_ws(msg@) {
                Ok::<(), Fault>(())
            } else {
                Err::<(), Fault>(Fault::AssertionFailed)
            },
    {
        if trimmed_eq(self.stdout.as_str(), msg) {
            Ok(())
        } else {
            Err(Fault::AssertionFailed)
        }
    }

    /// Holds exactly when the stderr stream output equals `msg` once
    /// both are trimmed of trailing whitespace.
    pub fn stderr_is(&self, msg: &str) -> (r: Result<(), Fault>)
        ensures
            r == if trim_end_ws(self.stderr@) == trim_end_ws(msg@) {
                Ok::<(), Fault>(())
            } else {
                Err::<(), Fault>(Fault::AssertionFailed)
            },
    {
        if trimmed_eq(self.stderr.as_str(), msg) {
            Ok(())
        } else {
            Err(Fault::AssertionFailed)
        }
    }

    /// Like `stdout_is`, but the expected text is the staged fixture
    /// file at the provided relative path.
    pub fn stdout_is_fixture(&self, file_rel_path: &str) -> (r: Result<(), Fault>)
        ensures
            find_file(self.fixtures@.files, file_rel_path@) is None ==> r == Err::<(), Fault>(
                Fault::FixtureAbsent,
            ),
            find_file(self.fixtures@.files, file_rel_path@) matches Some(b) ==> if !valid_utf8(b) {
                r == Err::<(), Fault>(Fault::NonTextOutput)
            } else {
                r == if trim_end_ws(self.stdout@) == trim_end_ws(decode_utf8(b)) {
                    Ok::<(), Fault>(())
                } else {
                    Err::<(), Fault>(Fault::AssertionFailed)
                }
            },
    {
        let contents = match fixture_text(&self.fixtures, file_rel_path) {
            Ok(s) => s,
            Err(f) => {
                return Err(f);
            },
        };
        self.stdout_is(contents.as_str())
    }

    /// Like `stderr_is`, but the expected text is the staged fixture
    /// file at the provided relative path.
    pub fn stderr_is_fixture(&self, file_rel_path: &str) -> (r: Result<(), Fault>)
        ensures
            find_file(self.fixtures@.files, file_rel_path@) is None ==> r == Err::<(), Fault>(
                Fault::FixtureAbsent,
            ),
            find_file(self.fixtures@.files, file_rel_path@) matches Some(b) ==> if !valid_utf8(b) {
                r == Err::<(), Fault>(Fault::NonTextOutput)
            } else {
                r == if trim_end_ws(self.stderr@) == trim_end_ws(decode_utf8(b)) {
                    Ok::<(), Fault>(())
                } else {
                    Err::<(), Fault>(Fault::AssertionFailed)
                }
            },
    {
        let contents = match fixture_text(&self.fixtures, file_rel_path) {
            Ok(s) => s,
            Err(f) => {
                return Err(f);
            },
        };
        self.stderr_is(contents.as_str())
    }

    /// Holds exactly when stdout matches `msg` under trailing-whitespace
    /// trimming and stderr is empty.
    pub fn stdout_only(&self, msg: &str) -> (r: Result<(), Fault>)
        ensures
            r == if self.stderr@.len() == 0 && trim_end_ws(self.stdout@) == trim_end_ws(msg@) {
                Ok::<(), Fault>(())
            } else {
                Err::<(), Fault>(Fault::AssertionFailed)
            },
    {
        match self.no_stderr() {
            Ok(_) => self.stdout_is(msg),
            Err(f) => Err(f),
        }
    }

    /// Like `stdout_only`, but the expected text is the staged fixture
    /// file at the provided relative path.
    pub fn stdout_only_fixture(&self, file_rel_path: &str) -> (r: Result<(), Fault>)
        ensures
            find_file(self.fixtures@.files, file_rel_path@) is None ==> r == Err::<(), Fault>(
                Fault::FixtureAbsent,
            ),
            find_file(self.fixtures@.files, file_rel_path@) matches Some(b) ==> if !valid_utf8(b) {
                r == Err::<(), Fault>(Fault::NonTextOutput)
            } else {
                r == if self.stderr@.len() == 0 && trim_end_ws(self.stdout@) == trim_end_ws(
                    decode_utf8(b),
                ) {
                    Ok::<(), Fault>(())
                } else {
                    Err::<(), Fault>(Fault::AssertionFailed)
                }
            },
    {
        let contents = match fixture_text(&self.fixtures, file_rel_path) {
            Ok(s) => s,
            Err(f) => {
                return Err(f);
            },
        };
        self.stdout_only(contents.as_str())
    }

    /// Holds exactly when stderr matches `msg` under trailing-whitespace
    /// trimming and stdout is empty.
    pub fn stderr_only(&self, msg: &str) -> (r: Result<(), Fault>)
        ensures
            r == if self.stdout@.len() == 0 && trim_end_ws(self.stderr@) == trim_end_ws(msg@) {
                Ok::<(), Fault>(())
            } else {
                Err::<(), Fault>(Fault::AssertionFailed)
            },
    {
        match self.no_stdout() {
            Ok(_) => self.stderr_is(msg),
            Err(f) => Err(f),
        }
    }

    /// Like `stderr_only`, but the expected text is the staged fixture
    /// file at the provided relative path.
    pub fn stderr_only_fixture(&self, file_rel_path: &str) -> (r: Result<(), Fault>)
        ensures
            find_file(self.fixtures@.files, file_rel_path@) is None ==> r == Err::<(), Fault>(
                Fault::FixtureAbsent,
            ),
            find_file(self.fixtures@.files, file_rel_path@) matches Some(b) ==> if !valid_utf8(b) {
                r == Err::<(), Fault>(Fault::NonTextOutput)
            } else {
                r == if self.stdout@.len() == 0 && trim_end_ws(self.stderr@) == trim_end_ws(
                    decode_utf8(b),
                ) {
                    Ok::<(), Fault>(())
                } else {
                    Err::<(), Fault>(Fault::AssertionFailed)
                }
            },
    {
        let contents = match fixture_text(&self.fixtures, file_rel_path) {
            Ok(s) => s,
            Err(f) => {
                return Err(f);
            },
        };
        self.stderr_only(contents.as_str())
    }

    /// Holds exactly when the command failed with empty stderr.
    pub fn fails_silently(&self) -> (r: Result<(), Fault>)
        ensures
            r == if !self.success && self.stderr@.len() == 0 {
                Ok::<(), Fault>(())
            } else {
                Err::<(), Fault>(Fault::AssertionFailed)
            },
    {
        match self.failure() {
            Ok(_) => self.no_stderr(),
            Err(f) => Err(f),
        }
    }
}

} // verus!

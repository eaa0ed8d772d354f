//! The two error classes of the harness. Misusing a builder or an
//! invocation (setting a one-shot value twice, running twice, mutating
//! after materialization) is a programming-error fault; a missing binary,
//! a missing fixture tree or non-text process output is an environment
//! fault. Either kind aborts the calling test; nothing here is retried.

use vstd::prelude::*;

verus! {

/// Why a harness operation was refused.
#[derive(Clone, Copy, Debug, PartialEq, Eq)]
pub enum Fault {
    /// A scene setter was called after the scene was materialized.
    AlreadyInstantiated,
    /// The fixture root was set a second time.
    FixtureRootSetTwice,
    /// The multicall subcommand was set a second time.
    MulticallSetTwice,
    /// A command builder or path view was requested before materialization.
    NotMaterialized,
    /// The resolved fixture source is missing or is not a directory.
    FixturesMissing,
    /// The sandbox's temporary directory could not be created or named.
    TempDirUnavailable,
    /// The configured binary path could not be resolved.
    BinaryUnresolved,
    /// The invocation was already run.
    AlreadyRun,
    /// A stdin payload was already set.
    MultipleStdin,
    /// A named fixture file is not staged in the sandbox.
    FixtureAbsent,
    /// Captured or staged bytes are not valid text.
    NonTextOutput,
    /// An assertion on an execution result did not hold.
    AssertionFailed,
}

impl Fault {
    /// A descriptive message identifying the misuse or the broken piece of
    /// the test environment.
    pub fn message(&self) -> (r: String)
        ensures
            *self is AlreadyInstantiated ==> r@ == "configuration of a scene must be done before the first call to its .cmd() or .ucmd()"@,
            *self is FixtureRootSetTwice ==> r@ == "the fixture root can only be set once. To add subdirectories in multiple steps, use .fixtures_subdir(:&Path)"@,
            *self is MulticallSetTwice ==> r@ == "the multicall subcommand can only be set once"@,
            *self is NotMaterialized ==> r@ == "the scene must be materialized before commands or path views are requested"@,
            *self is FixturesMissing ==> r@ == "error copying to fixtures directory. Are you sure it exists?"@,
            *self is TempDirUnavailable ==> r@ == "tried to create a temporary directory but failed"@,
            *self is BinaryUnresolved ==> r@ == "tried to resolve the path of the executable but failed"@,
            *self is AlreadyRun ==> r@ == "you have already run this UCommand, if you want to run another command in the same test, use scene.ucmd()"@,
            *self is MultipleStdin ==> r@ == "Ucommand is designed around a typical use case of: provide args and input stream -> spawn process -> block until completion -> return output streams. For verifying that a particular section of the input stream is what causes a particular behavior, use the Command type directly."@,
            *self is FixtureAbsent ==> r@ == "tried to read a fixture file that is not staged in the sandbox"@,
            *self is NonTextOutput ==> r@ == "captured or staged bytes are not valid text"@,
            *self is AssertionFailed ==> r@ == "an assertion on an execution result did not hold"@,
    {
        match self {
            Fault::AlreadyInstantiated => "configuration of a scene must be done before the first call to its .cmd() or .ucmd()".to_owned(),
            Fault::FixtureRootSetTwice => "the fixture root can only be set once. To add subdirectories in multiple steps, use .fixtures_subdir(:&Path)".to_owned(),
            Fault::MulticallSetTwice => "the multicall subcommand can only be set once".to_owned(),
            Fault::NotMaterialized => "the scene must be materialized before commands or path views are requested".to_owned(),
            Fault::FixturesMissing => "error copying to fixtures directory. Are you sure it exists?".to_owned(),
            Fault::TempDirUnavailable => "tried to create a temporary directory but failed".to_owned(),
            Fault::BinaryUnresolved => "tried to resolve the path of the executable but failed".to_owned(),
            Fault::AlreadyRun => "you have already run this UCommand, if you want to run another command in the same test, use scene.ucmd()".to_owned(),
            Fault::MultipleStdin => "Ucommand is designed around a typical use case of: provide args and input stream -> spawn process -> block until completion -> return output streams. For verifying that a particular section of the input stream is what causes a particular behavior, use the Command type directly.".to_owned(),
            Fault::FixtureAbsent => "tried to read a fixture file that is not staged in the sandbox".to_owned(),
            Fault::NonTextOutput => "captured or staged bytes are not valid text".to_owned(),
            Fault::AssertionFailed => "an assertion on an execution result did not hold".to_owned(),
        }
    }
}

} // verus!

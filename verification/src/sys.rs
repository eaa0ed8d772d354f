//! The few calls the harness makes into the operating system through the
//! `tempdir` crate and std. Each is a trusted wrapper: Verus believes the
//! stated contract and never reads the body. Everything that depends on
//! these results is verified for every value the contracts admit.

use vstd::prelude::*;

verus! {

#[verifier::external_type_specification]
#[verifier::external_body]
pub struct ExTempDir(tempdir::TempDir);

/// Relies on tempdir::TempDir::new: creates a fresh directory inside the
/// system's temporary directory, named with the given prefix, that is
/// deleted when the returned value is dropped. None when no directory
/// could be created. Which path is chosen involves randomness, so nothing
/// is promised of the value.
#[verifier::external_body]
pub(crate) fn temp_dir_new(prefix: &str) -> (r: Option<tempdir::TempDir>) {
    tempdir::TempDir::new(prefix).ok()
}

/// Relies on tempdir::TempDir::path: the directory's path, whose final
/// component is the nonempty prefixed random leaf, so the string is
/// nonempty and has no trailing separator. None when the path is not
/// valid Unicode.
#[verifier::external_body]
pub(crate) fn temp_dir_path_string(dir: &tempdir::TempDir) -> (r: Option<String>)
    ensures
        r matches Some(p) ==> p@.len() > 0 && p@[p@.len() - 1] != '/',
{
    dir.path().to_str().map(|s| s.to_owned())
}

/// Relies on std::path::Path::canonicalize: resolves symlinks and
/// normalizes the path against the file system; None when resolution
/// fails or the result is not valid Unicode. What comes back depends on
/// the state of the file system, so nothing is promised of the value.
#[verifier::external_body]
pub(crate) fn canonicalize_str(path: &str) -> (r: Option<String>) {
    std::path::Path::new(path).canonicalize().ok().and_then(|p| p.to_str().map(|s| s.to_owned()))
}

/// Relies on String::from_utf8: succeeds exactly on valid UTF-8 input and
/// decodes the bytes to the character sequence they encode.
#[verifier::external_body]
pub(crate) fn bytes_to_string(bytes: Vec<u8>) -> (r: Option<String>)
    ensures
        r is Some <==> vstd::utf8::valid_utf8(bytes@),
        r matches Some(s) ==> s@ == vstd::utf8::decode_utf8(bytes@),
{
    String::from_utf8(bytes).ok()
}

} // verus!

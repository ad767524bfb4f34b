//! Filesystem paths, carried through the library as opaque values.
use vstd::prelude::*;

verus! {

/// `std::path::PathBuf`, whose contents the library never inspects: paths are
/// built and used by the code that touches the filesystem.
#[verifier::external_type_specification]
#[verifier::external_body]
pub struct ExPathBuf(std::path::PathBuf);

/// `PathBuf::clone`, which the derived `Clone` of the configurations calls;
/// nothing is stated of the copy, since the library never looks into paths.
pub assume_specification[<std::path::PathBuf as Clone>::clone](p: &std::path::PathBuf) -> std::path::PathBuf;

/// A path with a name appended.
///
/// Calls `std::path::Path::join`; nothing is stated of the opaque path.
#[verifier::external_body]
pub(crate) fn path_join(base: &std::path::PathBuf, name: &str) -> std::path::PathBuf {
    base.join(name)
}

} // verus!

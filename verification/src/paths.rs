//! File-system paths, carried through the library unchanged.

use vstd::prelude::*;

verus! {

/// `std::path::PathBuf`: paths that the command line names are handed on
/// to the caller as they are; nothing here looks inside one.
#[verifier::external_type_specification]
#[verifier::external_body]
pub struct ExPathBuf(std::path::PathBuf);

} // verus!

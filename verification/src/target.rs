//! The diagnostic query.

use vstd::prelude::*;

verus! {

/// The identifier of the platform that the build was made for, as the build
/// recorded it. Always succeeds and changes nothing.
pub fn get_target_triple(build_target: &str) -> (triple: String)
    ensures
        triple@ == build_target@,
{
    build_target.to_owned()
}

} // verus!

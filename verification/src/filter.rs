//! Which events the trace recorder keeps.

use crate::error::occurs_in;
use vstd::prelude::*;

verus! {

/// Events whose target holds this marker come from the compiler backend and
/// are left out.
pub open spec fn noisy_target_marker() -> Seq<char> {
    "cranelift"@
}

/// Events whose name holds this marker were bridged in from the logging
/// facade and are left out.
pub open spec fn log_bridge_marker() -> Seq<char> {
    "log "@
}

/// The rule of the filter: an event is recorded unless its target holds the
/// backend marker or its name holds the logging marker.
pub open spec fn is_recorded(target: Seq<char>, name: Seq<char>) -> bool {
    !occurs_in(noisy_target_marker(), target) && !occurs_in(log_bridge_marker(), name)
}

/// Trusted: `str::contains` with a string pattern, which tells whether the
/// pattern matches a sub-slice of the string.
#[verifier::external_body]
fn contains_text(hay: &str, needle: &str) -> (found: bool)
    ensures
        found == occurs_in(needle@, hay@),
{
    hay.contains(needle)
}

/// Decides for one event, by its target and its name, whether the trace
/// recorder keeps it.
pub fn keeps_event(target: &str, name: &str) -> (keep: bool)
    ensures
        keep == is_recorded(target@, name@),
{
    !contains_text(target, "cranelift") && !contains_text(name, "log ")
}

} // verus!

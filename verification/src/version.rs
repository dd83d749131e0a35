//! The version of the bridge.

use vstd::prelude::*;

verus! {

/// The version text, as a sequence of characters.
pub open spec fn version_text() -> Seq<char> {
    "0.99.2-RS"@
}

/// Returns the version of the bridge. It takes nothing from its caller, so
/// the answer is the same on every call.
pub fn version() -> (text: &'static str)
    ensures
        text@ == version_text(),
{
    "0.99.2-RS"
}

} // verus!

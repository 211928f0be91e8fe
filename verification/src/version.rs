use vstd::prelude::*;

verus! {

/// The current version of the SDK.
pub const VERSION: &'static str = "0.1.0";

} // verus!

//! Image descriptions handed between the engine and its callers.

use vstd::prelude::*;

verus! {

/// What is known of a local image the user picked directly: where it
/// lies, its bare name and its size in bytes.
pub struct CustomImageInfo {
    pub path: String,
    pub name: String,
    pub size: u64,
}

} // verus!

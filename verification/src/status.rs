//! How a call into the operating system ended.

use vstd::prelude::*;

verus! {

/// What the operating system answered to one call: success, or the code of
/// the error it reported.
#[derive(Clone, Copy, Debug, PartialEq, Eq, Structural)]
pub enum Outcome {
    Succeeded,
    Failed(u32),
}

} // verus!

//! What the aggregator exchanges with the validator that flags deviating
//! answers.

use vstd::prelude::*;

verus! {

/// The threshold from which the validator flags an answer, as it reports it.
#[derive(Debug, Clone, Copy, PartialEq)]
pub struct FlaggingThresholdResponse {
    pub threshold: u32,
}

} // verus!

//! The noise model of a capture.

use vstd::prelude::*;

verus! {

/// Stands for the noise characteristics of a capture. Nothing in this crate
/// looks inside it; the merge stages that follow alignment give it meaning.
#[derive(Debug, Clone)]
pub struct NoiseModel {}

} // verus!

//! Batch conversion of protected music containers: the decisions of the
//! discovery / dispatch / convert pipeline, with their contracts.
use vstd::prelude::*;

pub mod error;
pub mod failure;
pub mod format;
pub mod decode;
pub mod paths;
pub mod progress;
pub mod provider;
pub mod pipeline;

verus! {

} // verus!

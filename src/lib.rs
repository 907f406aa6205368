//! Image asset fetching: an autonomous retry and reformulation engine, with the
//! decisions around search, download naming, configuration and feedback.
use vstd::prelude::*;

pub mod ai;
pub mod auto;
pub mod backoff;
pub mod cli;
pub mod config;
pub mod download;
pub mod errors;
pub mod feedback;
pub mod json;
pub mod retry;
pub mod search;
pub mod text;

verus! {

} // verus!

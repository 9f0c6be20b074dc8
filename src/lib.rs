use vstd::prelude::*;

pub mod accumulator;
pub mod config;
pub mod engine;
pub mod events;
pub mod feedback;
pub mod loader;
pub mod report;
pub mod session;

verus! {

} // verus!

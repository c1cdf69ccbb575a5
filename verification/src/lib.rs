use vstd::prelude::*;

pub mod config;
pub mod environment;
pub mod errors;
pub mod identity;
pub mod laws;
pub mod memory;
pub mod model;
pub mod utf8;

verus! {

} // verus!

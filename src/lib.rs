use vstd::prelude::*;

pub mod automation;
pub mod config;
pub mod hub;
pub mod menu;
pub mod state;

verus! {

} // verus!

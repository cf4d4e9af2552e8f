use vstd::prelude::*;

pub mod components;
pub mod content;
pub mod data;
pub mod ids;
pub mod ledger;
pub mod rng;
pub mod rules;
pub mod serialization;
pub mod simulation;
pub mod text;
pub mod weighted;

verus! {

} // verus!

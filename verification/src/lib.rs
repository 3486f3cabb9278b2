use vstd::prelude::*;

pub mod math;
pub mod inputs;
pub mod render;
pub mod game;

verus! {

} // verus!

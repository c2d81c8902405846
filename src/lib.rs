use vstd::prelude::*;

pub mod collisions;
pub mod components;
pub mod geometry;
pub mod laws;
pub mod movement;
pub mod scoring;
pub mod world;

verus! {

} // verus!

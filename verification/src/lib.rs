//! Layers of a map, each a region of the plane that polygon edits grow and
//! shrink, with a linear history of those edits and a hatched halo around
//! each region.
pub mod edit;
pub mod error;
pub mod fraction;
pub mod geometry;
pub mod hatch;
pub mod history;
pub mod laws;
pub mod layer;
pub mod region;
pub mod scalar;
pub mod sites;
pub mod sketch;
pub mod stroke;
pub mod tools;

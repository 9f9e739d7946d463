//! Integer core of a star-field gravity simulation: the seeded generator
//! that places the stars, the raw coordinates drawn for a new world, the
//! order in which pairs of stars interact, the count of the stars in
//! sight, and the decisions of the worker that advances the world or starts
//! it afresh.

pub mod driver;
pub mod pairs;
pub mod random;
pub mod visibility;
pub mod world;

//! Procedural generation of star systems for a resource-management game.
//!
//! A `System` holds a sequence of `Planet` values; each planet has a type, a
//! size, and a duplicate-free list of anomalies. Planets are drawn from
//! weighted categorical distributions threaded through an explicit randomness
//! source, so generation is reproducible from a seed.

pub mod types;
pub mod entropy;
pub mod sampler;
pub mod gen;
pub mod render;
pub mod economy;

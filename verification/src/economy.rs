//! The resource-conversion vocabulary: harvesters, factories and priced
//! quantities. These records define the economy's vocabulary only; no
//! behaviour is attached and the generator never consults them.

use vstd::prelude::*;

verus! {

/// A harvestable resource, used as a label in the economy vocabulary.
#[derive(Debug, Clone, Copy, PartialEq, Eq, Structural)]
pub enum Resource {
    Ore,
    Crystal,
    Energy,
    Science,
}

/// A number of harvesting units for one resource, with the per-unit costs
/// of acquiring more.
pub struct ResourceHarvester {
    pub count: u32,
    pub ore_cost: u32,
    pub crystal_cost: u32,
    pub energy_cost: u32,
    pub science_cost: u32,
}

/// A priced amount of one resource.
pub struct ResourceQuantity {
    pub resource: Resource,
    pub price: u32,
}

/// A conversion between resource quantities.
pub struct ResourceFactory {
    pub inputs: Vec<ResourceQuantity>,
    pub outputs: Vec<ResourceQuantity>,
}

} // verus!

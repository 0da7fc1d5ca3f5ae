//! The celestial data model: planet attributes, anomalies, planets and
//! systems, together with the abstract views the contracts speak of.

use vstd::prelude::*;

verus! {

/// The kind of a planet. Immutable once assigned.
#[derive(Debug, Clone, Copy, PartialEq, Eq, Structural)]
pub enum PlanetType {
    Standard,
    Gia,
    Barren,
}

/// The size tier of a planet, ordered by physical scale.
#[derive(Debug, Clone, Copy, PartialEq, Eq, Structural)]
pub enum PlanetSize {
    ExtraSmall,
    Small,
    Medium,
    Large,
    ExtraLarge,
    Giant,
}

/// A special qualitative trait attached to a planet. A planet carries at
/// most one anomaly of each kind.
#[derive(Debug, Clone, Copy, PartialEq, Eq, Hash, Structural)]
pub enum PlanetAnomaly {
    MineralRich,
    CrystalRich,
    EnergyRich,
    TribalCiv,
    AdvancedCiv,
    NuclearWasteLand,
}

/// A system-scale anomaly. The set of kinds is reserved for future
/// system-scale events and holds no real kind yet: no generator ever
/// produces a value of this type, and every generated system carries an
/// empty collection of them. The one placeholder variant exists only
/// because a datatype needs at least one variant here.
#[derive(Debug, Clone, Copy, PartialEq, Eq, Hash, Structural)]
pub enum SystemAnomaly {
    Reserved,
}

/// One celestial body: a type, a size, and a duplicate-free list of
/// anomalies in first-drawn order.
pub struct Planet {
    pub planet_type: PlanetType,
    pub planet_size: PlanetSize,
    pub anomalies: Vec<PlanetAnomaly>,
}

/// The mathematical view of a `Planet`.
#[verifier::ext_equal]
pub struct PlanetModel {
    pub planet_type: PlanetType,
    pub planet_size: PlanetSize,
    pub anomalies: Seq<PlanetAnomaly>,
}

impl View for Planet {
    type V = PlanetModel;

    open spec fn view(&self) -> PlanetModel {
        PlanetModel {
            planet_type: self.planet_type,
            planet_size: self.planet_size,
            anomalies: self.anomalies@,
        }
    }
}

/// One generation unit: an ordered sequence of planets (generation order is
/// significant) and a collection of system-scale anomalies.
pub struct System {
    pub planets: Vec<Planet>,
    pub anomalies: Vec<SystemAnomaly>,
}

/// The mathematical view of a `System`.
#[verifier::ext_equal]
pub struct SystemModel {
    pub planets: Seq<PlanetModel>,
    pub anomalies: Seq<SystemAnomaly>,
}

impl View for System {
    type V = SystemModel;

    open spec fn view(&self) -> SystemModel {
        SystemModel {
            planets: self.planets@.map_values(|p: Planet| p@),
            anomalies: self.anomalies@,
        }
    }
}

/// Holds when a planet's anomaly list contains no two anomalies of the same
/// kind.
pub open spec fn unique_anomalies(s: Seq<PlanetAnomaly>) -> bool {
    forall|i: int, j: int| 0 <= i < j < s.len() ==> s[i] != s[j]
}

} // verus!

//! The one observable serialization: the human-readable text rendering of
//! systems, planets and anomaly collections.
//!
//! The shape is `System(planets=[Planet(planet_type=<Type>,
//! planet_size=<Size>, anomalies=[<Anomaly>...])...] system_anomalies=[...])`,
//! with enum values rendered as their plain identifiers. List elements are
//! concatenated with no separator between them; that is the wire-compatible
//! current behaviour, kept as it stands.

use vstd::prelude::*;

use crate::economy::Resource;
use crate::types::{
    Planet, PlanetAnomaly, PlanetModel, PlanetSize, PlanetType, System, SystemAnomaly, SystemModel,
};
use vstd::string::StringExecFns;

verus! {

/// The identifier a resource renders as.
pub open spec fn resource_label(r: Resource) -> Seq<char> {
    match r {
        Resource::Ore => "Ore"@,
        Resource::Crystal => "Crystal"@,
        Resource::Energy => "Energy"@,
        Resource::Science => "Science"@,
    }
}

/// The identifier a planet type renders as.
pub open spec fn planet_type_label(t: PlanetType) -> Seq<char> {
    match t {
        PlanetType::Standard => "Standard"@,
        PlanetType::Gia => "Gia"@,
        PlanetType::Barren => "Barren"@,
    }
}

/// The identifier a planet size renders as.
pub open spec fn planet_size_label(t: PlanetSize) -> Seq<char> {
    match t {
        PlanetSize::ExtraSmall => "ExtraSmall"@,
        PlanetSize::Small => "Small"@,
        PlanetSize::Medium => "Medium"@,
        PlanetSize::Large => "Large"@,
        PlanetSize::ExtraLarge => "ExtraLarge"@,
        PlanetSize::Giant => "Giant"@,
    }
}

/// The identifier an anomaly kind renders as.
pub open spec fn anomaly_label(a: PlanetAnomaly) -> Seq<char> {
    match a {
        PlanetAnomaly::MineralRich => "MineralRich"@,
        PlanetAnomaly::CrystalRich => "CrystalRich"@,
        PlanetAnomaly::EnergyRich => "EnergyRich"@,
        PlanetAnomaly::TribalCiv => "TribalCiv"@,
        PlanetAnomaly::AdvancedCiv => "AdvancedCiv"@,
        PlanetAnomaly::NuclearWasteLand => "NuclearWasteLand"@,
    }
}

/// The identifier a system anomaly renders as.
pub open spec fn system_anomaly_label(a: SystemAnomaly) -> Seq<char> {
    match a {
        SystemAnomaly::Reserved => "Reserved"@,
    }
}

/// An anomaly list's text: the labels concatenated with no separator.
pub open spec fn anomalies_text(s: Seq<PlanetAnomaly>) -> Seq<char>
    decreases s.len(),
{
    if s.len() == 0 {
        Seq::empty()
    } else {
        anomalies_text(s.drop_last()) + anomaly_label(s.last())
    }
}

/// A system-anomaly list's text: the labels concatenated with no separator.
pub open spec fn system_anomalies_text(s: Seq<SystemAnomaly>) -> Seq<char>
    decreases s.len(),
{
    if s.len() == 0 {
        Seq::empty()
    } else {
        system_anomalies_text(s.drop_last()) + system_anomaly_label(s.last())
    }
}

/// A planet's text.
pub open spec fn planet_text(p: PlanetModel) -> Seq<char> {
    "Planet(planet_type="@ + planet_type_label(p.planet_type) + ", planet_size="@
        + planet_size_label(p.planet_size) + ", anomalies=["@ + anomalies_text(p.anomalies)
        + "])"@
}

/// A planet list's text: the planets concatenated with no separator.
pub open spec fn planets_text(s: Seq<PlanetModel>) -> Seq<char>
    decreases s.len(),
{
    if s.len() == 0 {
        Seq::empty()
    } else {
        planets_text(s.drop_last()) + planet_text(s.last())
    }
}

/// A system's text.
pub open spec fn system_text(m: SystemModel) -> Seq<char> {
    "System(planets=["@ + planets_text(m.planets) + "] system_anomalies=["@
        + system_anomalies_text(m.anomalies) + "])"@
}

/// The name a resource prints as.
pub fn resource_name(r: &Resource) -> (s: String)
    ensures
        s@ == resource_label(*r),
{
    match r {
        Resource::Ore => String::from_str("Ore"),
        Resource::Crystal => String::from_str("Crystal"),
        Resource::Energy => String::from_str("Energy"),
        Resource::Science => String::from_str("Science"),
    }
}

/// The name a planet type prints as.
pub fn planet_type_name(t: &PlanetType) -> (s: String)
    ensures
        s@ == planet_type_label(*t),
{
    match t {
        PlanetType::Standard => String::from_str("Standard"),
        PlanetType::Gia => String::from_str("Gia"),
        PlanetType::Barren => String::from_str("Barren"),
    }
}

/// The name a planet size prints as.
pub fn planet_size_name(t: &PlanetSize) -> (s: String)
    ensures
        s@ == planet_size_label(*t),
{
    match t {
        PlanetSize::ExtraSmall => String::from_str("ExtraSmall"),
        PlanetSize::Small => String::from_str("Small"),
        PlanetSize::Medium => String::from_str("Medium"),
        PlanetSize::Large => String::from_str("Large"),
        PlanetSize::ExtraLarge => String::from_str("ExtraLarge"),
        PlanetSize::Giant => String::from_str("Giant"),
    }
}

/// The name an anomaly kind prints as.
pub fn anomaly_name(a: &PlanetAnomaly) -> (s: String)
    ensures
        s@ == anomaly_label(*a),
{
    match a {
        PlanetAnomaly::MineralRich => String::from_str("MineralRich"),
        PlanetAnomaly::CrystalRich => String::from_str("CrystalRich"),
        PlanetAnomaly::EnergyRich => String::from_str("EnergyRich"),
        PlanetAnomaly::TribalCiv => String::from_str("TribalCiv"),
        PlanetAnomaly::AdvancedCiv => String::from_str("AdvancedCiv"),
        PlanetAnomaly::NuclearWasteLand => String::from_str("NuclearWasteLand"),
    }
}

/// The name a system anomaly prints as.
pub fn system_anomaly_name(a: &SystemAnomaly) -> (s: String)
    ensures
        s@ == system_anomaly_label(*a),
{
    match a {
        SystemAnomaly::Reserved => String::from_str("Reserved"),
    }
}

/// The starter-system law: the fixed starter system renders as exactly
/// this text, every time.
pub proof fn lemma_home_system_text()
    ensures
        system_text(crate::gen::home_system_model())
            == "System(planets=[Planet(planet_type=Standard, planet_size=Large, anomalies=[])] system_anomalies=[])"@,
{
    reveal_strlit("System(planets=[");
    reveal_strlit("Planet(planet_type=");
    reveal_strlit("Standard");
    reveal_strlit(", planet_size=");
    reveal_strlit("Large");
    reveal_strlit(", anomalies=[");
    reveal_strlit("])");
    reveal_strlit("] system_anomalies=[");
    reveal_strlit(
        "System(planets=[Planet(planet_type=Standard, planet_size=Large, anomalies=[])] system_anomalies=[])",
    );
    let m = crate::gen::home_system_model();
    assert(m.planets.drop_last() =~= Seq::<PlanetModel>::empty());
    assert(planets_text(Seq::<PlanetModel>::empty()) =~= Seq::<char>::empty());
    assert(anomalies_text(m.planets.last().anomalies) =~= Seq::<char>::empty());
    assert(system_anomalies_text(m.anomalies) =~= Seq::<char>::empty());
    assert(planets_text(m.planets) =~= planet_text(m.planets.last()));
    assert(system_text(m) =~= "System(planets=[Planet(planet_type=Standard, planet_size=Large, anomalies=[])] system_anomalies=[])"@);
}

/// Renders an anomaly list: the names concatenated with no separator.
pub fn render_anomalies(v: &Vec<PlanetAnomaly>) -> (s: String)
    ensures
        s@ == anomalies_text(v@),
{
    let mut s = String::new();
    let mut i: usize = 0;
    while i < v.len()
        invariant
            i <= v@.len(),
            s@ == anomalies_text(v@.take(i as int)),
        decreases v@.len() - i,
    {
        let name = anomaly_name(&v[i]);
        s.append(name.as_str());
        i += 1;
        proof {
            assert(v@.take(i as int).drop_last() =~= v@.take(i as int - 1));
            assert(v@.take(i as int).last() == v@[i as int - 1]);
        }
    }
    proof {
        assert(v@.take(v@.len() as int) =~= v@);
    }
    s
}

/// Renders a system-anomaly list: the names concatenated with no separator.
pub fn render_system_anomalies(v: &Vec<SystemAnomaly>) -> (s: String)
    ensures
        s@ == system_anomalies_text(v@),
{
    let mut s = String::new();
    let mut i: usize = 0;
    while i < v.len()
        invariant
            i <= v@.len(),
            s@ == system_anomalies_text(v@.take(i as int)),
        decreases v@.len() - i,
    {
        let name = system_anomaly_name(&v[i]);
        s.append(name.as_str());
        i += 1;
        proof {
            assert(v@.take(i as int).drop_last() =~= v@.take(i as int - 1));
            assert(v@.take(i as int).last() == v@[i as int - 1]);
        }
    }
    proof {
        assert(v@.take(v@.len() as int) =~= v@);
    }
    s
}

/// Renders one planet.
pub fn render_planet(p: &Planet) -> (s: String)
    ensures
        s@ == planet_text(p@),
{
    let mut s = String::from_str("Planet(planet_type=");
    let tname = planet_type_name(&p.planet_type);
    s.append(tname.as_str());
    s.append(", planet_size=");
    let size_name = planet_size_name(&p.planet_size);
    s.append(size_name.as_str());
    s.append(", anomalies=[");
    let anomalies = render_anomalies(&p.anomalies);
    s.append(anomalies.as_str());
    s.append("])");
    s
}

/// Renders a system, the only observable serialization: the planets in
/// generation order, then the system anomalies, lists concatenated with no
/// separator.
pub fn render_system(sys: &System) -> (s: String)
    ensures
        s@ == system_text(sys@),
{
    let mut s = String::from_str("System(planets=[");
    let mut i: usize = 0;
    while i < sys.planets.len()
        invariant
            i <= sys.planets@.len(),
            s@ == "System(planets=["@ + planets_text(sys.planets@.take(i as int).map_values(
                |p: Planet| p@,
            )),
        decreases sys.planets@.len() - i,
    {
        let text = render_planet(&sys.planets[i]);
        s.append(text.as_str());
        i += 1;
        proof {
            let m = sys.planets@.take(i as int).map_values(|p: Planet| p@);
            assert(m.drop_last() =~= sys.planets@.take(i as int - 1).map_values(|p: Planet| p@));
            assert(m.last() == sys.planets@[i as int - 1]@);
        }
    }
    proof {
        assert(sys.planets@.take(sys.planets@.len() as int) =~= sys.planets@);
        assert(sys.planets@.map_values(|p: Planet| p@) == sys@.planets);
    }
    s.append("] system_anomalies=[");
    let anomalies = render_system_anomalies(&sys.anomalies);
    s.append(anomalies.as_str());
    s.append("])");
    proof {
        assert(s@ =~= system_text(sys@));
    }
    s
}

} // verus!

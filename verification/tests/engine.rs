use talos::entropy::Entropy;
use talos::gen::{generate_system, home_system, ComplexPlanet};
use talos::render::{render_planet, render_system};
use talos::economy::Resource;
use talos::render::{anomaly_name, planet_size_name, planet_type_name, resource_name};
use talos::render::{render_system_anomalies, system_anomaly_name};
use talos::types::{Planet, PlanetAnomaly, PlanetSize, PlanetType, SystemAnomaly};

#[test]
fn home_system_renders_fixed_text() {
    let expected = "System(planets=[Planet(planet_type=Standard, planet_size=Large, \
                    anomalies=[])] system_anomalies=[])";
    let first = render_system(&home_system());
    assert_eq!(first, expected);
}

#[test]
fn home_system_is_identical_across_calls() {
    let a = render_system(&home_system());
    let b = render_system(&home_system());
    let c = render_system(&home_system());
    assert_eq!(a, b);
    assert_eq!(b, c);
}

#[test]
fn home_system_has_one_standard_large_planet() {
    let s = home_system();
    assert_eq!(s.planets.len(), 1);
    assert_eq!(s.planets[0].planet_type, PlanetType::Standard);
    assert_eq!(s.planets[0].planet_size, PlanetSize::Large);
    assert!(s.planets[0].anomalies.is_empty());
    assert!(s.anomalies.is_empty());
}

#[test]
fn generated_system_has_five_to_fourteen_planets() {
    for seed in 0..50u64 {
        let mut e = Entropy::from_seed(seed);
        let s = generate_system(&mut e);
        assert!(s.planets.len() >= 5, "seed {}: {} planets", seed, s.planets.len());
        assert!(s.planets.len() < 15, "seed {}: {} planets", seed, s.planets.len());
        assert!(s.anomalies.is_empty());
    }
}

#[test]
fn generated_planet_anomalies_are_unique_and_bounded() {
    let cp = ComplexPlanet;
    let mut e = Entropy::from_seed(7);
    for _ in 0..2000 {
        let p = cp.sample(&mut e);
        assert!(p.anomalies.len() <= 3);
        for i in 0..p.anomalies.len() {
            for j in (i + 1)..p.anomalies.len() {
                assert_ne!(p.anomalies[i], p.anomalies[j]);
            }
        }
    }
}

#[test]
fn seeded_generation_is_reproducible() {
    for seed in [0u64, 1, 42, 123456789, u64::MAX] {
        let mut e1 = Entropy::from_seed(seed);
        let mut e2 = Entropy::from_seed(seed);
        let s1 = generate_system(&mut e1);
        let s2 = generate_system(&mut e2);
        assert_eq!(render_system(&s1), render_system(&s2));
        // The sources stay in lockstep: a second generation agrees too.
        let t1 = generate_system(&mut e1);
        let t2 = generate_system(&mut e2);
        assert_eq!(render_system(&t1), render_system(&t2));
    }
}

#[test]
fn different_draws_change_the_source_state() {
    // Two systems generated back to back from one source are produced from
    // different states; the text of the pair still only depends on the seed.
    let mut e = Entropy::from_seed(3);
    let first = render_system(&generate_system(&mut e));
    let second = render_system(&generate_system(&mut e));
    let mut f = Entropy::from_seed(3);
    assert_eq!(render_system(&generate_system(&mut f)), first);
    assert_eq!(render_system(&generate_system(&mut f)), second);
}

#[test]
fn planet_render_concatenates_anomalies_without_separator() {
    let p = Planet {
        planet_type: PlanetType::Gia,
        planet_size: PlanetSize::Giant,
        anomalies: vec![PlanetAnomaly::MineralRich, PlanetAnomaly::TribalCiv],
    };
    assert_eq!(
        render_planet(&p),
        "Planet(planet_type=Gia, planet_size=Giant, anomalies=[MineralRichTribalCiv])"
    );
}

#[test]
fn system_render_concatenates_planets_without_separator() {
    let mut e = Entropy::from_seed(11);
    let s = generate_system(&mut e);
    let mut expected = String::from("System(planets=[");
    for p in &s.planets {
        expected.push_str(&render_planet(p));
    }
    expected.push_str("] system_anomalies=[])");
    assert_eq!(render_system(&s), expected);
}

#[test]
fn enum_names_render_as_plain_identifiers() {
    assert_eq!(planet_type_name(&PlanetType::Standard), "Standard");
    assert_eq!(planet_type_name(&PlanetType::Gia), "Gia");
    assert_eq!(planet_type_name(&PlanetType::Barren), "Barren");
    assert_eq!(planet_size_name(&PlanetSize::ExtraSmall), "ExtraSmall");
    assert_eq!(planet_size_name(&PlanetSize::Small), "Small");
    assert_eq!(planet_size_name(&PlanetSize::Medium), "Medium");
    assert_eq!(planet_size_name(&PlanetSize::Large), "Large");
    assert_eq!(planet_size_name(&PlanetSize::ExtraLarge), "ExtraLarge");
    assert_eq!(planet_size_name(&PlanetSize::Giant), "Giant");
    assert_eq!(anomaly_name(&PlanetAnomaly::MineralRich), "MineralRich");
    assert_eq!(anomaly_name(&PlanetAnomaly::CrystalRich), "CrystalRich");
    assert_eq!(anomaly_name(&PlanetAnomaly::EnergyRich), "EnergyRich");
    assert_eq!(anomaly_name(&PlanetAnomaly::TribalCiv), "TribalCiv");
    assert_eq!(anomaly_name(&PlanetAnomaly::AdvancedCiv), "AdvancedCiv");
    assert_eq!(anomaly_name(&PlanetAnomaly::NuclearWasteLand), "NuclearWasteLand");
    assert_eq!(resource_name(&Resource::Ore), "Ore");
    assert_eq!(resource_name(&Resource::Crystal), "Crystal");
    assert_eq!(resource_name(&Resource::Energy), "Energy");
    assert_eq!(resource_name(&Resource::Science), "Science");
}

#[test]
fn reserved_system_anomaly_renders_as_its_identifier() {
    assert_eq!(system_anomaly_name(&SystemAnomaly::Reserved), "Reserved");
    let list = vec![SystemAnomaly::Reserved, SystemAnomaly::Reserved];
    assert_eq!(render_system_anomalies(&list), "ReservedReserved");
}

//! The generation engine: fixed weight tables, the attribute generators
//! built on the categorical sampler, the anomaly-deduplication policy, and
//! the planet/system composition, together with the model that pins every
//! generated value down as a function of the source state.

use vstd::prelude::*;

use crate::entropy::{range_draw, Entropy};
use crate::sampler::{valid_weights, weighted_draw, WeightedTable};
use crate::types::{
    unique_anomalies, Planet, PlanetAnomaly, PlanetModel, PlanetSize, PlanetType, System,
    SystemModel,
};
use vstd::pervasive::unreached;

verus! {

// ---------------------------------------------------------------------
// The fixed weight tables.
// ---------------------------------------------------------------------

/// Planet-type weights over [Standard, Gia, Barren]: Standard is five times
/// as likely as either of the others.
pub open spec fn planet_type_weights() -> Seq<u64> {
    seq![5u64, 1u64, 1u64]
}

/// Planet-size weights over the six tiers, a bell shape centred on Medium
/// with a rare Giant tail.
pub open spec fn planet_size_weights() -> Seq<u64> {
    seq![10u64, 20u64, 50u64, 20u64, 10u64, 1u64]
}

/// Anomaly-count weights over the target counts 0..=3: zero or one anomaly
/// equally likely, two half as likely, three a near-impossible outlier.
pub open spec fn anomaly_count_weights() -> Seq<u64> {
    seq![500u64, 500u64, 250u64, 1u64]
}

/// Anomaly-kind weights over the six kinds: the four common kinds are ten
/// times as likely as either extreme kind.
pub open spec fn anomaly_kind_weights() -> Seq<u64> {
    seq![10u64, 10u64, 10u64, 10u64, 1u64, 1u64]
}

/// Builds the distribution for a table already known to be valid.
fn make_table(w: &Vec<i64>) -> (t: WeightedTable)
    requires
        valid_weights(w@),
    ensures
        t@ == w@.map_values(|x: i64| x as u64),
        t.wf(),
{
    match WeightedTable::new(w) {
        Ok(t) => t,
        Err(_) => unreached(),
    }
}

fn planet_type_table() -> (t: WeightedTable)
    ensures
        t@ == planet_type_weights(),
        t.wf(),
{
    let mut w: Vec<i64> = Vec::new();
    w.push(5);
    w.push(1);
    w.push(1);
    proof {
        let s = w@;
        assert(s =~= seq![5i64, 1i64, 1i64]);
        assert(s.drop_last() =~= seq![5i64, 1i64]);
        assert(seq![5i64, 1i64].drop_last() =~= seq![5i64]);
        assert(seq![5i64].drop_last() =~= Seq::<i64>::empty());
        assert(crate::sampler::sum_weights(Seq::<i64>::empty()) == 0);
        assert(crate::sampler::sum_weights(seq![5i64]) == 5);
        assert(crate::sampler::sum_weights(seq![5i64, 1i64]) == 6);
        assert(crate::sampler::sum_weights(s) == 7);
        assert(s.map_values(|x: i64| x as u64) =~= planet_type_weights());
    }
    make_table(&w)
}

fn planet_size_table() -> (t: WeightedTable)
    ensures
        t@ == planet_size_weights(),
        t.wf(),
{
    let mut w: Vec<i64> = Vec::new();
    w.push(10);
    w.push(20);
    w.push(50);
    w.push(20);
    w.push(10);
    w.push(1);
    proof {
        let s = w@;
        assert(s =~= seq![10i64, 20i64, 50i64, 20i64, 10i64, 1i64]);
        assert(s.drop_last() =~= seq![10i64, 20i64, 50i64, 20i64, 10i64]);
        assert(seq![10i64, 20i64, 50i64, 20i64, 10i64].drop_last() =~= seq![
            10i64,
            20i64,
            50i64,
            20i64,
        ]);
        assert(seq![10i64, 20i64, 50i64, 20i64].drop_last() =~= seq![10i64, 20i64, 50i64]);
        assert(seq![10i64, 20i64, 50i64].drop_last() =~= seq![10i64, 20i64]);
        assert(seq![10i64, 20i64].drop_last() =~= seq![10i64]);
        assert(seq![10i64].drop_last() =~= Seq::<i64>::empty());
        assert(crate::sampler::sum_weights(Seq::<i64>::empty()) == 0);
        assert(crate::sampler::sum_weights(seq![10i64]) == 10);
        assert(crate::sampler::sum_weights(seq![10i64, 20i64]) == 30);
        assert(crate::sampler::sum_weights(seq![10i64, 20i64, 50i64]) == 80);
        assert(crate::sampler::sum_weights(seq![10i64, 20i64, 50i64, 20i64]) == 100);
        assert(crate::sampler::sum_weights(seq![10i64, 20i64, 50i64, 20i64, 10i64]) == 110);
        assert(crate::sampler::sum_weights(s) == 111);
        assert(s.map_values(|x: i64| x as u64) =~= planet_size_weights());
    }
    make_table(&w)
}

fn anomaly_count_table() -> (t: WeightedTable)
    ensures
        t@ == anomaly_count_weights(),
        t.wf(),
{
    let mut w: Vec<i64> = Vec::new();
    w.push(500);
    w.push(500);
    w.push(250);
    w.push(1);
    proof {
        let s = w@;
        assert(s =~= seq![500i64, 500i64, 250i64, 1i64]);
        assert(s.drop_last() =~= seq![500i64, 500i64, 250i64]);
        assert(seq![500i64, 500i64, 250i64].drop_last() =~= seq![500i64, 500i64]);
        assert(seq![500i64, 500i64].drop_last() =~= seq![500i64]);
        assert(seq![500i64].drop_last() =~= Seq::<i64>::empty());
        assert(crate::sampler::sum_weights(Seq::<i64>::empty()) == 0);
        assert(crate::sampler::sum_weights(seq![500i64]) == 500);
        assert(crate::sampler::sum_weights(seq![500i64, 500i64]) == 1000);
        assert(crate::sampler::sum_weights(seq![500i64, 500i64, 250i64]) == 1250);
        assert(crate::sampler::sum_weights(s) == 1251);
        assert(s.map_values(|x: i64| x as u64) =~= anomaly_count_weights());
    }
    make_table(&w)
}

fn anomaly_kind_table() -> (t: WeightedTable)
    ensures
        t@ == anomaly_kind_weights(),
        t.wf(),
{
    let mut w: Vec<i64> = Vec::new();
    w.push(10);
    w.push(10);
    w.push(10);
    w.push(10);
    w.push(1);
    w.push(1);
    proof {
        let s = w@;
        assert(s =~= seq![10i64, 10i64, 10i64, 10i64, 1i64, 1i64]);
        assert(s.drop_last() =~= seq![10i64, 10i64, 10i64, 10i64, 1i64]);
        assert(seq![10i64, 10i64, 10i64, 10i64, 1i64].drop_last() =~= seq![
            10i64,
            10i64,
            10i64,
            10i64,
        ]);
        assert(seq![10i64, 10i64, 10i64, 10i64].drop_last() =~= seq![10i64, 10i64, 10i64]);
        assert(seq![10i64, 10i64, 10i64].drop_last() =~= seq![10i64, 10i64]);
        assert(seq![10i64, 10i64].drop_last() =~= seq![10i64]);
        assert(seq![10i64].drop_last() =~= Seq::<i64>::empty());
        assert(crate::sampler::sum_weights(Seq::<i64>::empty()) == 0);
        assert(crate::sampler::sum_weights(seq![10i64]) == 10);
        assert(crate::sampler::sum_weights(seq![10i64, 10i64]) == 20);
        assert(crate::sampler::sum_weights(seq![10i64, 10i64, 10i64]) == 30);
        assert(crate::sampler::sum_weights(seq![10i64, 10i64, 10i64, 10i64]) == 40);
        assert(crate::sampler::sum_weights(seq![10i64, 10i64, 10i64, 10i64, 1i64]) == 41);
        assert(crate::sampler::sum_weights(s) == 42);
        assert(s.map_values(|x: i64| x as u64) =~= anomaly_kind_weights());
    }
    make_table(&w)
}

// ---------------------------------------------------------------------
// Index-to-attribute maps: the tables order the outcomes as the enums do.
// ---------------------------------------------------------------------

/// The planet type at a sampled index.
pub open spec fn planet_type_of_index(i: usize) -> PlanetType {
    if i == 0 {
        PlanetType::Standard
    } else if i == 1 {
        PlanetType::Gia
    } else {
        PlanetType::Barren
    }
}

/// The planet size at a sampled index.
pub open spec fn planet_size_of_index(i: usize) -> PlanetSize {
    if i == 0 {
        PlanetSize::ExtraSmall
    } else if i == 1 {
        PlanetSize::Small
    } else if i == 2 {
        PlanetSize::Medium
    } else if i == 3 {
        PlanetSize::Large
    } else if i == 4 {
        PlanetSize::ExtraLarge
    } else {
        PlanetSize::Giant
    }
}

/// The anomaly kind at a sampled index.
pub open spec fn anomaly_of_index(i: usize) -> PlanetAnomaly {
    if i == 0 {
        PlanetAnomaly::MineralRich
    } else if i == 1 {
        PlanetAnomaly::CrystalRich
    } else if i == 2 {
        PlanetAnomaly::EnergyRich
    } else if i == 3 {
        PlanetAnomaly::TribalCiv
    } else if i == 4 {
        PlanetAnomaly::AdvancedCiv
    } else {
        PlanetAnomaly::NuclearWasteLand
    }
}

fn planet_type_from_index(i: usize) -> (t: PlanetType)
    ensures
        t == planet_type_of_index(i),
{
    if i == 0 {
        PlanetType::Standard
    } else if i == 1 {
        PlanetType::Gia
    } else {
        PlanetType::Barren
    }
}

fn planet_size_from_index(i: usize) -> (t: PlanetSize)
    ensures
        t == planet_size_of_index(i),
{
    if i == 0 {
        PlanetSize::ExtraSmall
    } else if i == 1 {
        PlanetSize::Small
    } else if i == 2 {
        PlanetSize::Medium
    } else if i == 3 {
        PlanetSize::Large
    } else if i == 4 {
        PlanetSize::ExtraLarge
    } else {
        PlanetSize::Giant
    }
}

fn anomaly_from_index(i: usize) -> (a: PlanetAnomaly)
    ensures
        a == anomaly_of_index(i),
{
    if i == 0 {
        PlanetAnomaly::MineralRich
    } else if i == 1 {
        PlanetAnomaly::CrystalRich
    } else if i == 2 {
        PlanetAnomaly::EnergyRich
    } else if i == 3 {
        PlanetAnomaly::TribalCiv
    } else if i == 4 {
        PlanetAnomaly::AdvancedCiv
    } else {
        PlanetAnomaly::NuclearWasteLand
    }
}

// ---------------------------------------------------------------------
// The anomaly-deduplication policy: keep the first draw of each kind,
// preserve draw order. Duplicates are dropped, not resampled, so the final
// set can be smaller than the target count; that is the current policy.
// ---------------------------------------------------------------------

/// The draws with every repeated kind removed, keeping the first occurrence
/// of each kind in draw order.
pub open spec fn dedup_first(s: Seq<PlanetAnomaly>) -> Seq<PlanetAnomaly>
    decreases s.len(),
{
    if s.len() == 0 {
        Seq::empty()
    } else {
        let prefix = dedup_first(s.drop_last());
        if s.drop_last().contains(s.last()) {
            prefix
        } else {
            prefix.push(s.last())
        }
    }
}

/// Deduplication neither invents nor loses kinds: a kind is in the result
/// exactly when it was drawn.
pub proof fn lemma_dedup_first_membership(s: Seq<PlanetAnomaly>, a: PlanetAnomaly)
    ensures
        dedup_first(s).contains(a) <==> s.contains(a),
    decreases s.len(),
{
    if s.len() > 0 {
        let d = s.drop_last();
        lemma_dedup_first_membership(d, a);
        if s.contains(a) {
            if a == s.last() {
                if d.contains(a) {
                    assert(dedup_first(s).contains(a));
                } else {
                    assert(dedup_first(s) == dedup_first(d).push(a));
                    assert(dedup_first(s).last() == a);
                    assert(dedup_first(s).contains(a));
                }
            } else {
                let i = choose|i: int| 0 <= i < s.len() && s[i] == a;
                assert(d[i] == a);
                assert(d.contains(a));
                if !d.contains(s.last()) {
                    assert(dedup_first(d).contains(a));
                    let j = choose|j: int| 0 <= j < dedup_first(d).len() && dedup_first(d)[j] == a;
                    assert(dedup_first(s)[j] == a);
                }
            }
        } else {
            assert(!d.contains(a)) by {
                if d.contains(a) {
                    let i = choose|i: int| 0 <= i < d.len() && d[i] == a;
                    assert(s[i] == a);
                }
            }
            if dedup_first(s).contains(a) {
                let j = choose|j: int| 0 <= j < dedup_first(s).len() && dedup_first(s)[j] == a;
                if !d.contains(s.last()) && j == dedup_first(s).len() - 1 {
                    assert(a == s.last());
                    assert(s.contains(a));
                } else {
                    assert(dedup_first(d)[j] == a);
                }
            }
        }
    }
}

/// The law of the anomaly set: deduplication leaves no two elements of one
/// kind and never yields more elements than were drawn.
pub proof fn lemma_dedup_first_unique(s: Seq<PlanetAnomaly>)
    ensures
        unique_anomalies(dedup_first(s)),
        dedup_first(s).len() <= s.len(),
    decreases s.len(),
{
    if s.len() > 0 {
        let d = s.drop_last();
        lemma_dedup_first_unique(d);
        if !d.contains(s.last()) {
            lemma_dedup_first_membership(d, s.last());
            let r = dedup_first(d).push(s.last());
            assert forall|i: int, j: int| 0 <= i < j < r.len() implies r[i] != r[j] by {
                if j < r.len() - 1 {
                    assert(dedup_first(d)[i] != dedup_first(d)[j]);
                } else {
                    assert(r[j] == s.last());
                    assert(r[i] == dedup_first(d)[i]);
                    assert(!dedup_first(d).contains(s.last()));
                    if r[i] == s.last() {
                        assert(dedup_first(d).contains(s.last()));
                    }
                }
            }
        }
    }
}

/// True exactly when the vector holds the given kind.
fn contains_anomaly(v: &Vec<PlanetAnomaly>, a: PlanetAnomaly) -> (r: bool)
    ensures
        r == v@.contains(a),
{
    let mut i: usize = 0;
    while i < v.len()
        invariant
            i <= v@.len(),
            forall|j: int| 0 <= j < i ==> v@[j] != a,
        decreases v@.len() - i,
    {
        if v[i] == a {
            assert(v@[i as int] == a);
            return true;
        }
        i += 1;
    }
    false
}

/// Removes repeated kinds from the draws, keeping the first of each kind in
/// draw order.
fn dedup_anomalies(v: &Vec<PlanetAnomaly>) -> (r: Vec<PlanetAnomaly>)
    ensures
        r@ == dedup_first(v@),
{
    let mut out: Vec<PlanetAnomaly> = Vec::new();
    let mut i: usize = 0;
    while i < v.len()
        invariant
            i <= v@.len(),
            out@ == dedup_first(v@.take(i as int)),
        decreases v@.len() - i,
    {
        let x = v[i];
        let dup = contains_anomaly(&out, x);
        proof {
            assert(v@.take(i as int + 1).drop_last() =~= v@.take(i as int));
            assert(v@.take(i as int + 1).last() == v@[i as int]);
            lemma_dedup_first_membership(v@.take(i as int), v@[i as int]);
        }
        if !dup {
            out.push(x);
        }
        i += 1;
    }
    proof {
        assert(v@.take(v@.len() as int) =~= v@);
    }
    out
}

// ---------------------------------------------------------------------
// The attribute generators.
// ---------------------------------------------------------------------

/// Draws a planet type from the type table; consumes one draw.
pub fn gen_planet_type(e: &mut Entropy) -> (t: PlanetType)
    ensures
        t == planet_type_of_index(weighted_draw(planet_type_weights(), old(e).bits()).0),
        final(e).bits() == weighted_draw(planet_type_weights(), old(e).bits()).1,
{
    let table = planet_type_table();
    let i = table.draw(e);
    planet_type_from_index(i)
}

/// Draws a planet size from the size table; consumes one draw.
pub fn gen_planet_size(e: &mut Entropy) -> (t: PlanetSize)
    ensures
        t == planet_size_of_index(weighted_draw(planet_size_weights(), old(e).bits()).0),
        final(e).bits() == weighted_draw(planet_size_weights(), old(e).bits()).1,
{
    let table = planet_size_table();
    let i = table.draw(e);
    planet_size_from_index(i)
}

/// Draws a target anomaly count from the count table; consumes one draw.
/// The target never exceeds three.
pub fn gen_anomaly_count(e: &mut Entropy) -> (k: usize)
    ensures
        k == weighted_draw(anomaly_count_weights(), old(e).bits()).0,
        final(e).bits() == weighted_draw(anomaly_count_weights(), old(e).bits()).1,
        k <= 3,
{
    let table = anomaly_count_table();
    table.draw(e)
}

/// Draws one anomaly kind from the kind table; consumes one draw.
pub fn gen_anomaly(e: &mut Entropy) -> (a: PlanetAnomaly)
    ensures
        a == anomaly_of_index(weighted_draw(anomaly_kind_weights(), old(e).bits()).0),
        final(e).bits() == weighted_draw(anomaly_kind_weights(), old(e).bits()).1,
{
    let table = anomaly_kind_table();
    let i = table.draw(e);
    anomaly_from_index(i)
}

// ---------------------------------------------------------------------
// The generation model: every generated value is this pure function of the
// source state, which is what makes seeded generation reproducible.
// ---------------------------------------------------------------------

/// The anomaly kinds that `k` consecutive draws produce from a given state,
/// in draw order, with the state left after them.
pub open spec fn spec_draw_anomalies(k: nat, s: Seq<u64>) -> (Seq<PlanetAnomaly>, Seq<u64>)
    decreases k,
{
    if k == 0 {
        (Seq::empty(), s)
    } else {
        let (i, s1) = weighted_draw(anomaly_kind_weights(), s);
        let (rest, s2) = spec_draw_anomalies((k - 1) as nat, s1);
        (seq![anomaly_of_index(i)] + rest, s2)
    }
}

/// Drawing `k` anomalies yields exactly `k` draws before deduplication.
pub proof fn lemma_spec_draw_anomalies_len(k: nat, s: Seq<u64>)
    ensures
        spec_draw_anomalies(k, s).0.len() == k,
    decreases k,
{
    if k > 0 {
        let (i, s1) = weighted_draw(anomaly_kind_weights(), s);
        lemma_spec_draw_anomalies_len((k - 1) as nat, s1);
    }
}

/// The anomaly-set law: a generated planet's anomaly list holds no two
/// elements of one kind, and never more elements than the target count its
/// generation step drew.
pub proof fn lemma_planet_anomaly_set(s: Seq<u64>)
    ensures
        ({
            let (p, _) = spec_gen_planet(s);
            let s1 = weighted_draw(planet_type_weights(), s).1;
            let s2 = weighted_draw(planet_size_weights(), s1).1;
            let target = weighted_draw(anomaly_count_weights(), s2).0;
            unique_anomalies(p.anomalies) && p.anomalies.len() <= target
        }),
{
    let s1 = weighted_draw(planet_type_weights(), s).1;
    let s2 = weighted_draw(planet_size_weights(), s1).1;
    let (ci, s3) = weighted_draw(anomaly_count_weights(), s2);
    lemma_spec_draw_anomalies_len(ci as nat, s3);
    lemma_dedup_first_unique(spec_draw_anomalies(ci as nat, s3).0);
}

/// The planet that one generation step produces from a given state: a type,
/// a size, a target count, that many anomaly draws deduplicated, and the
/// state left after them.
pub open spec fn spec_gen_planet(s: Seq<u64>) -> (PlanetModel, Seq<u64>) {
    let (ti, s1) = weighted_draw(planet_type_weights(), s);
    let (si, s2) = weighted_draw(planet_size_weights(), s1);
    let (ci, s3) = weighted_draw(anomaly_count_weights(), s2);
    let (draws, s4) = spec_draw_anomalies(ci as nat, s3);
    (
        PlanetModel {
            planet_type: planet_type_of_index(ti),
            planet_size: planet_size_of_index(si),
            anomalies: dedup_first(draws),
        },
        s4,
    )
}

/// The planets that `k` consecutive generation steps produce, in order.
pub open spec fn spec_gen_planets(k: nat, s: Seq<u64>) -> (Seq<PlanetModel>, Seq<u64>)
    decreases k,
{
    if k == 0 {
        (Seq::empty(), s)
    } else {
        let (p, s1) = spec_gen_planet(s);
        let (rest, s2) = spec_gen_planets((k - 1) as nat, s1);
        (seq![p] + rest, s2)
    }
}

/// A planet list holds exactly as many planets as generation steps taken.
pub proof fn lemma_spec_gen_planets_len(k: nat, s: Seq<u64>)
    ensures
        spec_gen_planets(k, s).0.len() == k,
    decreases k,
{
    if k > 0 {
        let (p, s1) = spec_gen_planet(s);
        lemma_spec_gen_planets_len((k - 1) as nat, s1);
    }
}

/// The system-shape law: a generated system holds exactly as many planets
/// as its range draw said, and no system anomalies.
pub proof fn lemma_system_shape(s: Seq<u64>)
    ensures
        spec_gen_system(s).0.planets.len() == range_draw(5, 15, s).0,
        spec_gen_system(s).0.anomalies.len() == 0,
{
    let (n, s1) = range_draw(5, 15, s);
    lemma_spec_gen_planets_len(n as nat, s1);
}

/// The system that one generation produces from a given state: a planet
/// count drawn uniformly from 5..15, that many planets, and no system
/// anomalies.
pub open spec fn spec_gen_system(s: Seq<u64>) -> (SystemModel, Seq<u64>) {
    let (n, s1) = range_draw(5, 15, s);
    let (ps, s2) = spec_gen_planets(n as nat, s1);
    (SystemModel { planets: ps, anomalies: Seq::empty() }, s2)
}

// ---------------------------------------------------------------------
// The exec generators.
// ---------------------------------------------------------------------

/// Draws `k` anomaly kinds in order.
fn draw_anomalies(k: usize, e: &mut Entropy) -> (r: Vec<PlanetAnomaly>)
    ensures
        r@ == spec_draw_anomalies(k as nat, old(e).bits()).0,
        final(e).bits() == spec_draw_anomalies(k as nat, old(e).bits()).1,
        r@.len() == k,
{
    let table = anomaly_kind_table();
    let mut out: Vec<PlanetAnomaly> = Vec::new();
    let mut i: usize = 0;
    while i < k
        invariant
            i <= k,
            out@.len() == i,
            table@ == anomaly_kind_weights(),
            table.wf(),
            spec_draw_anomalies(k as nat, old(e).bits()).0 == out@ + spec_draw_anomalies(
                (k - i) as nat,
                e.bits(),
            ).0,
            spec_draw_anomalies(k as nat, old(e).bits()).1 == spec_draw_anomalies(
                (k - i) as nat,
                e.bits(),
            ).1,
        decreases k - i,
    {
        let ghost s_cur = e.bits();
        let ghost out_old = out@;
        let idx = table.draw(e);
        let a = anomaly_from_index(idx);
        out.push(a);
        i += 1;
        proof {
            let (rest, s2) = spec_draw_anomalies((k - i) as nat, e.bits());
            assert(spec_draw_anomalies((k - i + 1) as nat, s_cur).0 == seq![a] + rest);
            assert(out@ =~= out_old.push(a));
            assert(out_old + (seq![a] + rest) =~= out@ + rest);
        }
    }
    proof {
        assert(out@ + spec_draw_anomalies(0, e.bits()).0 =~= out@);
    }
    out
}

/// The stochastic planet generator.
pub struct ComplexPlanet;

impl ComplexPlanet {
    /// Draws one planet: its type, its size, a target anomaly count, and
    /// that many anomaly draws deduplicated by kind, first occurrence kept
    /// in draw order. The anomaly list holds no two elements of one kind
    /// and never more than the target count of three.
    pub fn sample(&self, e: &mut Entropy) -> (p: Planet)
        ensures
            p@ == spec_gen_planet(old(e).bits()).0,
            final(e).bits() == spec_gen_planet(old(e).bits()).1,
            unique_anomalies(p@.anomalies),
            p@.anomalies.len() <= 3,
    {
        let planet_type = gen_planet_type(e);
        let planet_size = gen_planet_size(e);
        let count = gen_anomaly_count(e);
        let draws = draw_anomalies(count, e);
        let anomalies = dedup_anomalies(&draws);
        let p = Planet { planet_type, planet_size, anomalies };
        proof {
            lemma_dedup_first_unique(draws@);
            assert(p@ =~= spec_gen_planet(old(e).bits()).0);
        }
        p
    }
}

/// Generates a full system: a planet count drawn uniformly from 5..15,
/// that many planets in generation order, and an empty system-anomaly
/// collection. Never returns a partial system.
pub fn generate_system(e: &mut Entropy) -> (s: System)
    ensures
        s@ == spec_gen_system(old(e).bits()).0,
        final(e).bits() == spec_gen_system(old(e).bits()).1,
        s@.planets.len() == range_draw(5, 15, old(e).bits()).0,
        5 <= s@.planets.len() < 15,
        forall|i: int|
            0 <= i < s@.planets.len() ==> unique_anomalies(#[trigger] s@.planets[i].anomalies)
                && s@.planets[i].anomalies.len() <= 3,
        s@.anomalies.len() == 0,
{
    let n64 = e.draw_range(5, 15);
    let ghost s1 = e.bits();
    let n = n64 as usize;
    let cp = ComplexPlanet;
    let mut planets: Vec<Planet> = Vec::new();
    let mut i: usize = 0;
    while i < n
        invariant
            i <= n,
            5 <= n < 15,
            planets@.len() == i,
            spec_gen_planets(n as nat, s1).0 == planets@.map_values(|p: Planet| p@)
                + spec_gen_planets((n - i) as nat, e.bits()).0,
            spec_gen_planets(n as nat, s1).1 == spec_gen_planets((n - i) as nat, e.bits()).1,
            forall|j: int|
                0 <= j < i ==> unique_anomalies(#[trigger] planets@[j]@.anomalies)
                    && planets@[j]@.anomalies.len() <= 3,
        decreases n - i,
    {
        let ghost s_cur = e.bits();
        let ghost acc_old = planets@.map_values(|p: Planet| p@);
        let p = cp.sample(e);
        planets.push(p);
        i += 1;
        proof {
            let (rest, s2) = spec_gen_planets((n - i) as nat, e.bits());
            assert(spec_gen_planets((n - i + 1) as nat, s_cur).0 == seq![p@] + rest);
            assert(planets@.map_values(|q: Planet| q@) =~= acc_old.push(p@));
            assert(acc_old + (seq![p@] + rest) =~= planets@.map_values(|q: Planet| q@) + rest);
        }
    }
    let s = System { planets, anomalies: Vec::new() };
    proof {
        assert(s@.planets + spec_gen_planets(0, e.bits()).0 =~= s@.planets);
        assert(s@ =~~= spec_gen_system(old(e).bits()).0);
    }
    s
}

// ---------------------------------------------------------------------
// The fixed-seed constructor.
// ---------------------------------------------------------------------

/// The model of the fixed starter system: exactly one Standard, Large planet
/// with no anomalies, and no system anomalies.
pub open spec fn home_system_model() -> SystemModel {
    SystemModel {
        planets: seq![
            PlanetModel {
                planet_type: PlanetType::Standard,
                planet_size: PlanetSize::Large,
                anomalies: Seq::empty(),
            },
        ],
        anomalies: Seq::empty(),
    }
}

/// The deterministic starting system. Consults no randomness, so every call
/// returns the same value.
pub fn home_system() -> (s: System)
    ensures
        s@ == home_system_model(),
{
    let planet = Planet {
        planet_type: PlanetType::Standard,
        planet_size: PlanetSize::Large,
        anomalies: Vec::new(),
    };
    let mut planets: Vec<Planet> = Vec::new();
    planets.push(planet);
    let s = System { planets, anomalies: Vec::new() };
    proof {
        assert(s@.planets =~= home_system_model().planets);
        assert(s@ =~~= home_system_model());
    }
    s
}

// ---------------------------------------------------------------------
// The degenerate-source law.
// ---------------------------------------------------------------------

/// The planet a degenerate source produces: every table's index 0.
pub open spec fn degenerate_planet_model() -> PlanetModel {
    PlanetModel {
        planet_type: PlanetType::Standard,
        planet_size: PlanetSize::ExtraSmall,
        anomalies: Seq::empty(),
    }
}

proof fn lemma_degenerate_planets(k: nat, s: Seq<u64>)
    requires
        forall|t: Seq<u64>| (#[trigger] weighted_draw(planet_type_weights(), t)).0 == 0,
        forall|t: Seq<u64>| (#[trigger] weighted_draw(planet_size_weights(), t)).0 == 0,
        forall|t: Seq<u64>| (#[trigger] weighted_draw(anomaly_count_weights(), t)).0 == 0,
    ensures
        spec_gen_planets(k, s).0.len() == k,
        forall|i: int| 0 <= i < k ==> spec_gen_planets(k, s).0[i] == degenerate_planet_model(),
    decreases k,
{
    if k > 0 {
        let (p, s1) = spec_gen_planet(s);
        assert(spec_draw_anomalies(0, weighted_draw(anomaly_count_weights(),
            weighted_draw(planet_size_weights(),
            weighted_draw(planet_type_weights(), s).1).1).1).0 =~= Seq::<PlanetAnomaly>::empty());
        assert(p =~= degenerate_planet_model());
        lemma_degenerate_planets((k - 1) as nat, s1);
        let (rest, _) = spec_gen_planets((k - 1) as nat, s1);
        assert(spec_gen_planets(k, s).0 == seq![p] + rest);
        assert forall|i: int| 0 <= i < k implies spec_gen_planets(k, s).0[i]
            == degenerate_planet_model() by {
            if i > 0 {
                assert((seq![p] + rest)[i] == rest[i - 1]);
            }
        }
    }
}

/// The end-to-end shape of a degenerate generation: if every categorical
/// draw yields index 0 and the range draw its low end, the generated system
/// has exactly five planets, each Standard, ExtraSmall and anomaly-free,
/// and no system anomalies.
pub proof fn lemma_degenerate_source_system(s: Seq<u64>)
    requires
        forall|t: Seq<u64>| (#[trigger] weighted_draw(planet_type_weights(), t)).0 == 0,
        forall|t: Seq<u64>| (#[trigger] weighted_draw(planet_size_weights(), t)).0 == 0,
        forall|t: Seq<u64>| (#[trigger] weighted_draw(anomaly_count_weights(), t)).0 == 0,
        forall|t: Seq<u64>| (#[trigger] range_draw(5, 15, t)).0 == 5,
    ensures
        spec_gen_system(s).0.planets.len() == 5,
        forall|i: int|
            0 <= i < 5 ==> spec_gen_system(s).0.planets[i] == degenerate_planet_model(),
        spec_gen_system(s).0.anomalies.len() == 0,
{
    let (n, s1) = range_draw(5, 15, s);
    lemma_degenerate_planets(n as nat, s1);
}

} // verus!

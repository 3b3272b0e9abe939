//! The damage resolution pipeline: four mitigation stages, the derived
//! damage figures, and the randomized single- and multi-hit simulation.

use vstd::arithmetic::div_mod::{
    lemma_div_is_ordered, lemma_div_nonincreasing, lemma_fundamental_div_mod,
};
use vstd::arithmetic::mul::{lemma_mul_inequality, lemma_mul_upper_bound};
use vstd::prelude::*;

use crate::equipment::{spec_total_attack, EquipmentSet};
use crate::monster::Monster;

use rand::rngs::SmallRng;
use rand::Rng;
use rand::SeedableRng;

verus! {

/// The critical-hit chance in per-mille. A real computation is not yet
/// implemented; every result carries this placeholder value.
pub const CRITICAL_RATE_PERMILLE: u32 = 0;

/// The elemental damage bonus in per-mille. A real computation is not yet
/// implemented; every result carries this placeholder value.
pub const ELEMENT_BONUS_PERMILLE: u32 = 0;

/// The largest attack total a loadout can reach: five slots of `u32` attack.
pub const MAX_TOTAL_ATTACK: u64 = 21474836475;

/// A flat mitigation stage: the reduction is subtracted, and a hit that is
/// fully absorbed is floored to 1.
pub open spec fn spec_mitigate(value: int, reduction: int) -> int {
    if value > reduction {
        value - reduction
    } else {
        1
    }
}

/// The damage left after the three flat stages: status defense, then fixed
/// defense, then fixed reduction, each floored to 1.
pub open spec fn spec_after_reductions(attack: int, m: Monster) -> int {
    spec_mitigate(
        spec_mitigate(spec_mitigate(attack, m.defense as int), m.fixed_defense as int),
        m.fixed_reduction as int,
    )
}

/// The base damage: the flat stages followed by the multiplicative cut rate.
/// This last stage is not floored to 1; a base damage of 0 is a valid result.
pub open spec fn spec_base_damage(attack: int, m: Monster) -> int {
    spec_after_reductions(attack, m) * (1000 - m.cut_rate_permille as int) / 1000
}

/// Critical damage: one and a half times the base damage, rounded down.
pub open spec fn spec_critical_damage(base: int) -> int {
    base * 3 / 2
}

/// The lower end of the normal hit range: 90% of the base damage rounded
/// down, floored to 1 even when the base damage is 0.
pub open spec fn spec_min_damage(base: int) -> int {
    if base * 9 / 10 < 1 {
        1
    } else {
        base * 9 / 10
    }
}

/// The upper end of the normal hit range: 110% of the base damage rounded
/// down, floored to 1 even when the base damage is 0.
pub open spec fn spec_max_damage(base: int) -> int {
    if base * 11 / 10 < 1 {
        1
    } else {
        base * 11 / 10
    }
}

/// Hits needed to take `hp` down with an average hit of `(min + max) / 2`:
/// the ceiling of `hp` divided by that average.
pub open spec fn spec_hits_to_kill(hp: int, min: int, max: int) -> int
    recommends
        min + max > 0,
{
    (2 * hp + (min + max) - 1) / (min + max)
}

/// A damage resolution snapshot for one (loadout, monster) pair.
///
/// The average damage is the exact midpoint of the normal hit range; to stay
/// in integers it is held doubled: `average_damage_twice` is
/// `min_damage + max_damage`, twice the average. `hits_to_kill` is `None`
/// when the average is 0, which would make the target unkillable; the
/// resolution pipeline itself never produces that degenerate value.
#[derive(Debug, Clone)]
pub struct DamageResult {
    pub base_damage: u64,
    pub min_damage: u64,
    pub max_damage: u64,
    pub average_damage_twice: u64,
    pub critical_rate_permille: u32,
    pub critical_damage: u64,
    pub element_bonus_permille: u32,
    pub hits_to_kill: Option<u64>,
}

/// Subtracts a flat reduction from an incoming damage value, never going
/// below the floor of one.
pub fn mitigate(value: u64, reduction: u64) -> (r: u64)
    ensures
        r == spec_mitigate(value as int, reduction as int),
{
    if value > reduction {
        value - reduction
    } else {
        1
    }
}

/// Hits needed to take `hp` down when single hits range over
/// `[min_damage, max_damage]`. A degenerate range averaging 0 makes the
/// target unkillable, reported as `None` rather than dividing by zero.
pub fn hits_to_kill(hp: u32, min_damage: u64, max_damage: u64) -> (r: Option<u64>)
    requires
        min_damage + max_damage < 0x4000_0000_0000_0000,
    ensures
        min_damage + max_damage == 0 ==> r is None,
        min_damage + max_damage > 0 ==> (r matches Some(h) && h == spec_hits_to_kill(
            hp as int,
            min_damage as int,
            max_damage as int,
        )),
{
    let sum = min_damage + max_damage;
    if sum == 0 {
        None
    } else {
        Some((2 * (hp as u64) + sum - 1) / sum)
    }
}

/// The mitigation stages never push damage past these bounds: each flat
/// stage yields at least 1 and no more than the larger of its input and 1.
proof fn lemma_after_reductions_bounds(attack: int, m: Monster)
    requires
        0 <= attack,
    ensures
        1 <= spec_after_reductions(attack, m),
        spec_after_reductions(attack, m) <= if attack > 1 {
            attack
        } else {
            1
        },
{
}

/// The base damage is bounded by the damage entering the cut stage.
proof fn lemma_base_damage_bounds(attack: int, m: Monster)
    requires
        0 <= attack,
        m.cut_rate_permille < 1000,
    ensures
        0 <= spec_base_damage(attack, m),
        spec_base_damage(attack, m) <= spec_after_reductions(attack, m),
{
    let a = spec_after_reductions(attack, m);
    let k = 1000 - m.cut_rate_permille as int;
    lemma_after_reductions_bounds(attack, m);
    assert(a * k >= 0) by (nonlinear_arith)
        requires
            a >= 1,
            k >= 1,
    ;
    lemma_div_nonincreasing(a * k, 1000);
    assert(a * k <= a * 1000) by (nonlinear_arith)
        requires
            a >= 1,
            1 <= k <= 1000,
    ;
    lemma_div_is_ordered(a * k, a * 1000, 1000);
    assert(a * 1000 / 1000 == a) by (nonlinear_arith)
        requires
            a >= 1,
    ;
}

/// The normal hit range around a non-negative base damage is well formed:
/// both ends are at least 1, the lower end does not pass the upper one, and
/// the upper end gives back at least 90% of the base damage
/// (`9 * base <= 10 * max`, the round trip of the ±10% band).
pub proof fn lemma_damage_band(base: int)
    requires
        0 <= base,
    ensures
        1 <= spec_min_damage(base),
        spec_min_damage(base) <= spec_max_damage(base),
        9 * base <= 10 * spec_max_damage(base),
{
    assert(base * 9 <= base * 11) by (nonlinear_arith)
        requires
            base >= 0,
    ;
    lemma_div_is_ordered(base * 9, base * 11, 10);
    if base >= 5 {
        lemma_fundamental_div_mod(base * 11, 10);
        assert(0 <= (base * 11) % 10 < 10);
        assert(10 * (base * 11 / 10) == base * 11 - (base * 11) % 10);
        assert(base * 11 >= base * 9 + 9) by (nonlinear_arith)
            requires
                base >= 5,
        ;
        assert(base * 11 >= 10) by (nonlinear_arith)
            requires
                base >= 5,
        ;
        lemma_div_is_ordered(10, base * 11, 10);
        assert(base * 11 / 10 >= 1);
    } else {
        assert(base == 0 || base == 1 || base == 2 || base == 3 || base == 4);
    }
}

/// Declares rand's `SmallRng` so the calculator can hold one; Verus sees
/// nothing of its state.
#[verifier::external_type_specification]
#[verifier::external_body]
pub struct ExSmallRng(SmallRng);

/// Raising the attack while the monster stands fixed never lowers the base
/// damage.
pub proof fn lemma_base_damage_monotone_in_attack(a1: int, a2: int, m: Monster)
    requires
        m.cut_rate_permille < 1000,
        0 <= a1 <= a2,
    ensures
        spec_base_damage(a1, m) <= spec_base_damage(a2, m),
{
    let x1 = spec_after_reductions(a1, m);
    let x2 = spec_after_reductions(a2, m);
    let k = 1000 - m.cut_rate_permille as int;
    assert(x1 <= x2);
    lemma_mul_inequality(x1, x2, k);
    lemma_div_is_ordered(x1 * k, x2 * k, 1000);
}

/// Raising any of the monster's mitigation stats — status defense, fixed
/// defense, fixed reduction or cut rate — while the attack stands fixed
/// never raises the base damage.
pub proof fn lemma_base_damage_antitone_in_mitigation(attack: int, m1: Monster, m2: Monster)
    requires
        0 <= attack,
        m1.cut_rate_permille < 1000,
        m2.cut_rate_permille < 1000,
        m1.defense <= m2.defense,
        m1.fixed_defense <= m2.fixed_defense,
        m1.fixed_reduction <= m2.fixed_reduction,
        m1.cut_rate_permille <= m2.cut_rate_permille,
    ensures
        spec_base_damage(attack, m2) <= spec_base_damage(attack, m1),
{
    let x1 = spec_after_reductions(attack, m1);
    let x2 = spec_after_reductions(attack, m2);
    let k1 = 1000 - m1.cut_rate_permille as int;
    let k2 = 1000 - m2.cut_rate_permille as int;
    lemma_after_reductions_bounds(attack, m1);
    lemma_after_reductions_bounds(attack, m2);
    assert(x2 <= x1);
    lemma_mul_upper_bound(x2, x1, k2, k1);
    lemma_div_is_ordered(x2 * k2, x1 * k1, 1000);
}

/// Relies on rand's `SmallRng::from_entropy`: a fresh generator seeded from
/// the operating system's entropy source.
#[verifier::external_body]
fn rng_from_entropy() -> SmallRng {
    SmallRng::from_entropy()
}

/// Relies on rand's `SmallRng::seed_from_u64`: a generator in a state
/// derived from the given seed.
#[verifier::external_body]
fn rng_from_seed(seed: u64) -> SmallRng {
    SmallRng::seed_from_u64(seed)
}

/// Relies on rand's `Rng::gen_range` over `0..1000`: a value drawn from that
/// half-open range, which is never empty.
#[verifier::external_body]
fn rng_permille(rng: &mut SmallRng) -> (r: u32)
    ensures
        r < 1000,
{
    rng.gen_range(0..1000u32)
}

/// Relies on rand's `Rng::gen_range` over `lo..=hi`: a value drawn from that
/// inclusive range. `gen_range` panics on an empty range, so the bounds must
/// be ordered.
#[verifier::external_body]
fn rng_range_u64(rng: &mut SmallRng, lo: u64, hi: u64) -> (r: u64)
    requires
        lo <= hi,
    ensures
        lo <= r <= hi,
{
    rng.gen_range(lo..=hi)
}

/// Turns a loadout and a monster into damage figures, and samples single and
/// repeated hits from them. Resolution itself is deterministic; only the
/// simulation advances the generator's state.
pub struct DamageCalculator {
    rng: SmallRng,
}

impl DamageCalculator {
    /// A calculator whose simulations draw from operating-system entropy.
    pub fn new() -> DamageCalculator {
        DamageCalculator { rng: rng_from_entropy() }
    }

    /// A calculator whose simulations draw from a reproducible, explicitly
    /// seeded generator, for test use.
    pub fn with_seed(seed: u64) -> DamageCalculator {
        DamageCalculator { rng: rng_from_seed(seed) }
    }

    /// Resolves the damage figures for a loadout against a monster: the four
    /// mitigation stages, the ±10% normal hit range, critical damage, the
    /// doubled average, and the hits needed to kill. Deterministic: the
    /// result is a function of the two arguments alone.
    pub fn calculate_damage(
        &mut self,
        equipment: &EquipmentSet,
        monster: &Monster,
    ) -> (r: DamageResult)
        requires
            monster.cut_rate_permille < 1000,
        ensures
            *final (self) == *old(self),
            ({
                let base = spec_base_damage(spec_total_attack(*equipment), *monster);
                &&& r.base_damage == base
                &&& r.min_damage == spec_min_damage(base)
                &&& r.max_damage == spec_max_damage(base)
                &&& r.critical_damage == spec_critical_damage(base)
                &&& r.average_damage_twice == r.min_damage + r.max_damage
                &&& r.critical_rate_permille == CRITICAL_RATE_PERMILLE
                &&& r.element_bonus_permille == ELEMENT_BONUS_PERMILLE
                &&& r.hits_to_kill matches Some(h) && h == spec_hits_to_kill(
                    monster.hp as int,
                    r.min_damage as int,
                    r.max_damage as int,
                )
            }),
            1 <= r.min_damage <= r.max_damage,
            9 * r.base_damage <= 10 * r.max_damage,
    {
        let attack: u64 = equipment.total_attack();
        let after_status = mitigate(attack, monster.defense as u64);
        let after_fixed_defense = mitigate(after_status, monster.fixed_defense as u64);
        let after_fixed_reduction = mitigate(after_fixed_defense, monster.fixed_reduction as u64);
        proof {
            lemma_after_reductions_bounds(attack as int, *monster);
            lemma_base_damage_bounds(attack as int, *monster);
        }
        let base_damage = after_fixed_reduction * (1000 - monster.cut_rate_permille as u64) / 1000;
        proof {
            lemma_damage_band(base_damage as int);
        }
        let critical_damage = base_damage * 3 / 2;
        let min_raw = base_damage * 9 / 10;
        let min_damage = if min_raw < 1 {
            1
        } else {
            min_raw
        };
        let max_raw = base_damage * 11 / 10;
        let max_damage = if max_raw < 1 {
            1
        } else {
            max_raw
        };
        let average_damage_twice = min_damage + max_damage;
        let hits = hits_to_kill(monster.hp, min_damage, max_damage);
        DamageResult {
            base_damage,
            min_damage,
            max_damage,
            average_damage_twice,
            critical_rate_permille: CRITICAL_RATE_PERMILLE,
            critical_damage,
            element_bonus_permille: ELEMENT_BONUS_PERMILLE,
            hits_to_kill: hits,
        }
    }

    /// One simulated hit: the damage figures are resolved afresh, a critical
    /// roll is made against the critical rate, and the hit is either the
    /// critical damage or a draw from the normal range.
    pub fn simulate_single_hit(&mut self, equipment: &EquipmentSet, monster: &Monster) -> (r: u64)
        requires
            monster.cut_rate_permille < 1000,
        ensures
            ({
                let base = spec_base_damage(spec_total_attack(*equipment), *monster);
                ||| spec_min_damage(base) <= r <= spec_max_damage(base)
                ||| r == spec_critical_damage(base)
            }),
    {
        let result = self.calculate_damage(equipment, monster);
        let roll = rng_permille(&mut self.rng);
        if roll < result.critical_rate_permille {
            result.critical_damage
        } else {
            rng_range_u64(&mut self.rng, result.min_damage, result.max_damage)
        }
    }

    /// Repeated independent hits, summed so the caller has their mean as the
    /// exact ratio `total / count`. Zero hits would leave the mean undefined
    /// and yields `None` instead of dividing by zero.
    pub fn simulate_multiple_hits(
        &mut self,
        equipment: &EquipmentSet,
        monster: &Monster,
        hits: u32,
    ) -> (r: Option<(u128, u32)>)
        requires
            monster.cut_rate_permille < 1000,
        ensures
            hits == 0 <==> r is None,
            r matches Some(p) ==> ({
                let base = spec_base_damage(spec_total_attack(*equipment), *monster);
                let lo = if spec_critical_damage(base) < spec_min_damage(base) {
                    spec_critical_damage(base)
                } else {
                    spec_min_damage(base)
                };
                let hi = if spec_critical_damage(base) > spec_max_damage(base) {
                    spec_critical_damage(base)
                } else {
                    spec_max_damage(base)
                };
                &&& p.1 == hits
                &&& lo * hits <= p.0 <= hi * hits
            }),
    {
        if hits == 0 {
            return None;
        }
        let ghost base = spec_base_damage(spec_total_attack(*equipment), *monster);
        let ghost lo = if spec_critical_damage(base) < spec_min_damage(base) {
            spec_critical_damage(base)
        } else {
            spec_min_damage(base)
        };
        let ghost hi = if spec_critical_damage(base) > spec_max_damage(base) {
            spec_critical_damage(base)
        } else {
            spec_max_damage(base)
        };
        proof {
            lemma_hit_value_bounds(spec_total_attack(*equipment), *monster);
        }
        let mut total: u128 = 0;
        let mut done: u32 = 0;
        while done < hits
            invariant
                monster.cut_rate_permille < 1000,
                0 <= done <= hits,
                base == spec_base_damage(spec_total_attack(*equipment), *monster),
                lo == if spec_critical_damage(base) < spec_min_damage(base) {
                    spec_critical_damage(base)
                } else {
                    spec_min_damage(base)
                },
                hi == if spec_critical_damage(base) > spec_max_damage(base) {
                    spec_critical_damage(base)
                } else {
                    spec_max_damage(base)
                },
                0 <= lo,
                hi <= 0x8000_0000_0000_0000,
                lo * done <= total <= hi * done,
            decreases hits - done,
        {
            let hit = self.simulate_single_hit(equipment, monster);
            proof {
                assert(lo * (done + 1) == lo * done + lo) by (nonlinear_arith);
                assert(hi * (done + 1) == hi * done + hi) by (nonlinear_arith);
                lemma_mul_upper_bound(hi, 0x8000_0000_0000_0000, done + 1, 0x1_0000_0000);
            }
            total = total + (hit as u128);
            done = done + 1;
        }
        Some((total, hits))
    }
}

/// Every value a single hit can take lies between the smaller and the larger
/// of the normal range's ends and the critical damage, and those stay small
/// enough that any number of hits fits the running total.
proof fn lemma_hit_value_bounds(attack: int, m: Monster)
    requires
        0 <= attack <= MAX_TOTAL_ATTACK,
        m.cut_rate_permille < 1000,
    ensures
        ({
            let base = spec_base_damage(attack, m);
            &&& 0 <= base <= MAX_TOTAL_ATTACK
            &&& 0 <= spec_critical_damage(base) <= 0x8000_0000_0000_0000
            &&& 1 <= spec_min_damage(base) <= spec_max_damage(base) <= 0x8000_0000_0000_0000
        }),
{
    lemma_after_reductions_bounds(attack, m);
    lemma_base_damage_bounds(attack, m);
    let base = spec_base_damage(attack, m);
    lemma_damage_band(base);
    lemma_div_nonincreasing(base * 3, 2);
    lemma_div_nonincreasing(base * 11, 10);
    assert(base * 3 <= MAX_TOTAL_ATTACK * 3) by (nonlinear_arith)
        requires
            0 <= base <= MAX_TOTAL_ATTACK,
    ;
    assert(base * 11 <= MAX_TOTAL_ATTACK * 11) by (nonlinear_arith)
        requires
            0 <= base <= MAX_TOTAL_ATTACK,
    ;
}

} // verus!

//! The engine's formulas: upgrade prices, the AI production multiplier,
//! population growth and the score reward.

use vstd::prelude::*;
use vstd::arithmetic::power2::{pow2, lemma_pow2_unfold, lemma_pow2_strictly_increases};
use crate::entities::City;
use crate::resources::{BuildingCost, u64_max};

verus! {

/// The gold price of upgrading a building from `level`: `200 * 2^level`.
pub open spec fn upgrade_gold(level: nat) -> nat {
    200 * pow2(level)
}

/// The wood price of upgrading a building from `level`: `100 * 2^level`.
pub open spec fn upgrade_wood(level: nat) -> nat {
    100 * pow2(level)
}

/// The stone price of upgrading a building from `level`: `100 * 2^level`.
pub open spec fn upgrade_stone(level: nat) -> nat {
    100 * pow2(level)
}

/// The price of upgrading a building from `level`; `None` when the price does
/// not fit in 64-bit counters.
pub fn calculate_upgrade_cost(level: u8) -> (r: Option<BuildingCost>)
    ensures
        r.is_some() <==> upgrade_gold(level as nat) <= u64_max(),
        r.is_some() ==> r.unwrap().gold == upgrade_gold(level as nat),
        r.is_some() ==> r.unwrap().wood == upgrade_wood(level as nat),
        r.is_some() ==> r.unwrap().stone == upgrade_stone(level as nat),
{
    let mut multiplier: u64 = 1;
    let mut i: u8 = 0;
    proof {
        reveal(vstd::arithmetic::power::pow);
        assert(pow2(0) == 1) by {
            vstd::arithmetic::power2::lemma2_to64();
        }
    }
    while i < level
        invariant
            i <= level,
            multiplier == pow2(i as nat),
            200 * multiplier <= u64_max(),
        decreases level - i,
    {
        proof {
            lemma_pow2_unfold((i + 1) as nat);
        }
        if multiplier > 0xffff_ffff_ffff_ffff / 400 {
            proof {
                if i + 1 < level {
                    lemma_pow2_strictly_increases((i + 1) as nat, level as nat);
                }
            }
            return None;
        }
        multiplier = multiplier * 2;
        i = i + 1;
    }
    Some(BuildingCost { gold: 200 * multiplier, wood: 100 * multiplier, stone: 100 * multiplier })
}

/// The AI production multiplier of `ai_level`, in tenths: `1 + ai_level / 10`
/// is returned as `10 + ai_level`.
pub fn calculate_ai_bonus(ai_level: u8) -> (r: u64)
    ensures
        r == 10 + ai_level,
{
    10 + ai_level as u64
}

/// The food factor of growth, in tenths: 1.2 when food is more than twice the
/// population, else 1.0 when food exceeds the population, else 0.5.
pub open spec fn food_factor_tenths(population: nat, food: nat) -> nat {
    if food > 2 * population {
        12
    } else if food > population {
        10
    } else {
        5
    }
}

/// The housing factor of growth, in tenths: `min(buildings / 10, 2.0)`.
pub open spec fn housing_factor_tenths(buildings: nat) -> nat {
    if buildings < 20 {
        buildings
    } else {
        20
    }
}

/// Population growth over one cycle:
/// `floor((population / 100) * food_factor * housing_factor)`, where
/// `population / 100` is an integer division and the product is exact.
pub open spec fn population_growth(population: nat, food: nat, buildings: nat) -> nat {
    (population / 100) * food_factor_tenths(population, food) * housing_factor_tenths(buildings)
        / 100
}

/// Population growth over one cycle for a city of `population` holding
/// `food` and `buildings` buildings.
pub fn growth_from(population: u64, food: u64, buildings: usize) -> (r: u64)
    ensures
        r == population_growth(population as nat, food as nat, buildings as nat),
{
    let population = population as u128;
    let food = food as u128;
    let food_factor: u128 = if food > 2 * population {
        12
    } else if food > population {
        10
    } else {
        5
    };
    let housing_factor: u128 = if buildings < 20 {
        buildings as u128
    } else {
        20
    };
    let base: u128 = population / 100;
    assert(base * food_factor * housing_factor <= 0xffff_ffff_ffff_ffff * 240) by (nonlinear_arith)
        requires
            base <= 0xffff_ffff_ffff_ffff,
            food_factor <= 12,
            housing_factor <= 20,
    ;
    assert(base * food_factor * housing_factor / 100 <= base * 240 / 100) by (nonlinear_arith)
        requires
            food_factor <= 12,
            housing_factor <= 20,
    ;
    assert(base * 240 / 100 <= 0xffff_ffff_ffff_ffff) by (nonlinear_arith)
        requires
            base == population / 100,
            population <= 0xffff_ffff_ffff_ffff,
    ;
    let growth = base * food_factor * housing_factor / 100;
    growth as u64
}

/// The growth of `city`'s population over one cycle, from its population,
/// its food and its number of buildings.
pub fn calculate_population_growth(city: &City) -> (r: u64)
    ensures
        r == population_growth(
            city.population as nat,
            city.resources.food as nat,
            city.buildings@.len(),
        ),
{
    growth_from(city.population, city.resources.food, city.buildings.len())
}

/// The reward a city earns in one cycle: one gold per full thousand of score.
pub open spec fn reward_of(score: nat) -> nat {
    score / 1000
}

/// The reward `city` earns in one cycle.
pub fn calculate_reward(city: &City) -> (r: u64)
    ensures
        r == reward_of(city.score as nat),
{
    city.score / 1000
}

} // verus!

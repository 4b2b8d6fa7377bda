//! One simulation cycle of a city: production, population growth and the
//! score reward.

use vstd::prelude::*;
use anchor_lang::prelude::Pubkey;
use crate::catalog::{building_template, get_building_template};
use crate::entities::{BuildingRef, City, Game, GameError, GameTickProcessed};
use crate::formulas::{calculate_ai_bonus, calculate_reward, growth_from, population_growth, reward_of};
use crate::resources::{CityResources, ResourceTable, ResourceType, scale_tenths, u64_max};

verus! {

/// What the buildings `buildings` produce of `kind` in one cycle at an AI
/// multiplier of `tenths / 10`: each building's catalog rate for its type,
/// scaled and rounded down on its own, summed over the buildings.
pub open spec fn production_of(buildings: Seq<BuildingRef>, kind: ResourceType, tenths: nat) -> nat
    decreases buildings.len(),
{
    if buildings.len() == 0 {
        0
    } else {
        production_of(buildings.drop_last(), kind, tenths) + scale_tenths(
            building_template(buildings.last().building_type).production_rate.spec_get(kind) as nat,
            tenths,
        )
    }
}

/// Production over a prefix of the buildings is at most production over all
/// of them.
proof fn lemma_production_prefix(buildings: Seq<BuildingRef>, n: int, kind: ResourceType, tenths: nat)
    requires
        0 <= n <= buildings.len(),
    ensures
        production_of(buildings.take(n), kind, tenths) <= production_of(buildings, kind, tenths),
    decreases buildings.len(),
{
    if n == buildings.len() {
        assert(buildings.take(n) =~= buildings);
    } else {
        let rest = buildings.drop_last();
        lemma_production_prefix(rest, n, kind, tenths);
        assert(rest.take(n) =~= buildings.take(n));
    }
}

/// What `city` produces of `kind` in one cycle, at its own AI level.
pub open spec fn city_produces(city: City, kind: ResourceType) -> nat {
    production_of(city.buildings@, kind, (10 + city.ai_level) as nat)
}

/// What `city` produces in one cycle, kind by kind; `None` when one of the
/// totals does not fit in 64 bits.
pub fn city_production(city: &City) -> (r: Option<ResourceTable>)
    ensures
        r.is_some() <==> forall|k: ResourceType| #[trigger] city_produces(*city, k) <= u64_max(),
        r.is_some() ==> forall|k: ResourceType|
            #[trigger] r.unwrap().spec_get(k) == city_produces(*city, k),
{
    let bonus = calculate_ai_bonus(city.ai_level);
    let ghost buildings = city.buildings@;
    let mut total = ResourceTable::empty();
    let mut i: usize = 0;
    assert(buildings.take(0) =~= Seq::<BuildingRef>::empty());
    while i < city.buildings.len()
        invariant
            buildings == city.buildings@,
            bonus == 10 + city.ai_level,
            i <= buildings.len(),
            forall|k: ResourceType|
                #[trigger] total.spec_get(k) == production_of(buildings.take(i as int), k, bonus as nat),
        decreases buildings.len() - i,
    {
        let template = get_building_template(city.buildings[i].building_type);
        proof {
            let next = buildings.take(i + 1);
            assert(next.drop_last() =~= buildings.take(i as int));
            assert(next.last() == buildings[i as int]);
        }
        let amounts = match template.production_rate.scaled(bonus) {
            Some(a) => a,
            None => {
                proof {
                    let k = choose|k: ResourceType|
                        !(scale_tenths(#[trigger] template.production_rate.spec_get(k) as nat, bonus as nat)
                            <= u64_max());
                    lemma_production_prefix(buildings, i + 1, k, bonus as nat);
                    assert(city_produces(*city, k) > u64_max());
                }
                return None;
            },
        };
        proof {
            assert forall|k: ResourceType|
                production_of(buildings.take(i + 1), k, bonus as nat) == #[trigger] total.spec_get(k)
                    + amounts.spec_get(k) by {
                assert(amounts.spec_get(k) == scale_tenths(
                    template.production_rate.spec_get(k) as nat,
                    bonus as nat,
                ));
            }
        }
        total = match total.checked_add(&amounts) {
            Some(t) => t,
            None => {
                proof {
                    let k = choose|k: ResourceType|
                        !(#[trigger] total.spec_get(k) + amounts.spec_get(k) <= u64_max());
                    lemma_production_prefix(buildings, i + 1, k, bonus as nat);
                    assert(city_produces(*city, k) > u64_max());
                }
                return None;
            },
        };
        i = i + 1;
    }
    assert(buildings.take(i as int) =~= buildings);
    assert forall|k: ResourceType| #[trigger] city_produces(*city, k) <= u64_max() by {
        assert(total.spec_get(k) == city_produces(*city, k));
    }
    Some(total)
}

/// The accounts a cycle works on: the city, its address, and the session.
#[derive(Clone, Debug)]
pub struct GameTick {
    pub city: City,
    pub city_key: Pubkey,
    pub game: Game,
}

/// The city's balance of `kind` once this cycle's production is added.
pub open spec fn stocked(city: City, kind: ResourceType) -> nat {
    city.resources.spec_get(kind) as nat + city_produces(city, kind)
}

/// The city's population growth this cycle, from its stock of food after
/// production.
pub open spec fn tick_growth(city: City) -> nat {
    population_growth(city.population as nat, stocked(city, ResourceType::Food), city.buildings@.len())
}

/// Whether every counter that a cycle raises fits in 64 bits.
pub open spec fn tick_fits(city: City, game: Game) -> bool {
    &&& forall|k: ResourceType| #[trigger] stocked(city, k) <= u64_max()
    &&& city.population + tick_growth(city) <= u64_max()
    &&& game.total_population + tick_growth(city) <= u64_max()
    &&& stocked(city, ResourceType::Gold) + reward_of(city.score as nat) <= u64_max()
    &&& game.cycle + 1 <= u64_max()
}

/// Advances the city by one cycle at time `now`. Production from every
/// building, by catalog rate for its type times the AI multiplier, is added
/// to the balances; the population then grows by the growth formula; the
/// score reward is added to gold; the session's cycle counter advances.
/// Fails with `ArithmeticOverflow` when a counter would overflow, and then
/// changes nothing.
pub fn game_tick(ctx: &mut GameTick, now: i64) -> (r: Result<GameTickProcessed, GameError>)
    ensures
        r.is_ok() <==> tick_fits(old(ctx).city, old(ctx).game),
        r.is_err() ==> r == Err::<GameTickProcessed, GameError>(GameError::ArithmeticOverflow)
            && *final(ctx) == *old(ctx),
        old(ctx).game.wf() ==> final(ctx).game.wf(),
        r.is_ok() ==> {
            let (c0, c1) = (old(ctx).city, final(ctx).city);
            &&& c1.resources == (CityResources {
                gold: (stocked(c0, ResourceType::Gold) + reward_of(c0.score as nat)) as u64,
                wood: stocked(c0, ResourceType::Wood) as u64,
                stone: stocked(c0, ResourceType::Stone) as u64,
                food: stocked(c0, ResourceType::Food) as u64,
                energy: stocked(c0, ResourceType::Energy) as u64,
            })
            &&& c1.population == c0.population + tick_growth(c0)
            &&& c1.last_updated == now
            &&& c1.buildings@ == c0.buildings@
            &&& c1.score == c0.score
            &&& c1.same_identity(c0)
            &&& c1.ai_level == c0.ai_level
            &&& c1.strategy == c0.strategy
            &&& final(ctx).game == (Game {
                cycle: (old(ctx).game.cycle + 1) as u64,
                total_population: (old(ctx).game.total_population + tick_growth(c0)) as u64,
                last_update: now,
                ..old(ctx).game
            })
            &&& final(ctx).city_key == old(ctx).city_key
            &&& r.unwrap() == (GameTickProcessed {
                city: old(ctx).city_key,
                cycle: final(ctx).game.cycle,
                population: c1.population,
                gold: c1.resources.gold,
            })
        },
{
    let ghost c0 = ctx.city;
    let production = match city_production(&ctx.city) {
        Some(p) => p,
        None => {
            proof {
                let k = choose|k: ResourceType| !(#[trigger] city_produces(c0, k) <= u64_max());
                assert(stocked(c0, k) > u64_max());
            }
            return Err(GameError::ArithmeticOverflow);
        },
    };
    proof {
        assert(production.spec_get(ResourceType::Gold) == production.gold);
        assert(production.spec_get(ResourceType::Wood) == production.wood);
        assert(production.spec_get(ResourceType::Stone) == production.stone);
        assert(production.spec_get(ResourceType::Food) == production.food);
        assert(production.spec_get(ResourceType::Energy) == production.energy);
        assert(c0.resources.spec_get(ResourceType::Gold) == c0.resources.gold);
        assert(c0.resources.spec_get(ResourceType::Wood) == c0.resources.wood);
        assert(c0.resources.spec_get(ResourceType::Stone) == c0.resources.stone);
        assert(c0.resources.spec_get(ResourceType::Food) == c0.resources.food);
        assert(c0.resources.spec_get(ResourceType::Energy) == c0.resources.energy);
        assert(stocked(c0, ResourceType::Gold) == c0.resources.gold + production.gold);
        assert(stocked(c0, ResourceType::Wood) == c0.resources.wood + production.wood);
        assert(stocked(c0, ResourceType::Stone) == c0.resources.stone + production.stone);
        assert(stocked(c0, ResourceType::Food) == c0.resources.food + production.food);
        assert(stocked(c0, ResourceType::Energy) == c0.resources.energy + production.energy);
    }
    let resources = ctx.city.resources;
    let gold = match resources.gold.checked_add(production.gold) {
        Some(v) => v,
        None => return Err(GameError::ArithmeticOverflow),
    };
    let wood = match resources.wood.checked_add(production.wood) {
        Some(v) => v,
        None => return Err(GameError::ArithmeticOverflow),
    };
    let stone = match resources.stone.checked_add(production.stone) {
        Some(v) => v,
        None => return Err(GameError::ArithmeticOverflow),
    };
    let food = match resources.food.checked_add(production.food) {
        Some(v) => v,
        None => return Err(GameError::ArithmeticOverflow),
    };
    let energy = match resources.energy.checked_add(production.energy) {
        Some(v) => v,
        None => return Err(GameError::ArithmeticOverflow),
    };
    proof {
        assert forall|k: ResourceType| #[trigger] stocked(c0, k) <= u64_max() by {
            assert(production.spec_get(k) == city_produces(c0, k));
        }
    }
    let growth = growth_from(ctx.city.population, food, ctx.city.buildings.len());
    let population = match ctx.city.population.checked_add(growth) {
        Some(v) => v,
        None => return Err(GameError::ArithmeticOverflow),
    };
    let total_population = match ctx.game.total_population.checked_add(growth) {
        Some(v) => v,
        None => return Err(GameError::ArithmeticOverflow),
    };
    let reward = calculate_reward(&ctx.city);
    let gold = match gold.checked_add(reward) {
        Some(v) => v,
        None => return Err(GameError::ArithmeticOverflow),
    };
    let cycle = match ctx.game.cycle.checked_add(1) {
        Some(v) => v,
        None => return Err(GameError::ArithmeticOverflow),
    };

    ctx.city.resources = CityResources { gold, wood, stone, food, energy };
    ctx.city.population = population;
    ctx.city.last_updated = now;

    ctx.game.cycle = cycle;
    ctx.game.total_population = total_population;
    ctx.game.last_update = now;

    Ok(GameTickProcessed {
        city: ctx.city_key,
        cycle: ctx.game.cycle,
        population: ctx.city.population,
        gold: ctx.city.resources.gold,
    })
}

} // verus!

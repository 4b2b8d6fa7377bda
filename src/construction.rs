//! Building construction.

use vstd::prelude::*;
use anchor_lang::prelude::Pubkey;
use crate::catalog::{BuildingData, building_template, get_building_template};
use crate::entities::{BuildStructureParams, Building, BuildingBuilt, BuildingRef, City, Game, GameError};
use crate::resources::{BuildingCost, CityResources, u64_max};

verus! {

/// The accounts a construction works on: the city and its address, the
/// address of the new building, the owner, and the session.
#[derive(Clone, Debug)]
pub struct BuildStructure {
    pub city: City,
    pub city_key: Pubkey,
    pub building: Pubkey,
    pub owner: Pubkey,
    pub game: Game,
}

/// Whether `resources` cover `cost`, each material on its own.
pub open spec fn can_afford(resources: CityResources, cost: BuildingCost) -> bool {
    &&& resources.gold >= cost.gold
    &&& resources.wood >= cost.wood
    &&& resources.stone >= cost.stone
}

/// Whether the counters that a construction from `template` raises all fit.
pub open spec fn construction_fits(city: City, game: Game, template: BuildingData) -> bool {
    &&& city.population + template.population_bonus <= u64_max()
    &&& city.score + template.score_bonus <= u64_max()
    &&& game.total_buildings + 1 <= u64_max()
    &&& game.total_population + template.population_bonus <= u64_max()
}

/// A new building of `building_type` for the city at `city_key`, as its
/// template describes it, at level 1.
pub open spec fn new_building(city_key: Pubkey, building_type: crate::catalog::BuildingType, now: i64) -> Building {
    let t = building_template(building_type);
    Building {
        city: city_key,
        building_type,
        level: 1,
        production_rate: t.production_rate,
        maintenance_cost: t.maintenance_cost,
        population_bonus: t.population_bonus,
        resource_bonus: t.resource_bonus,
        created_at: now,
    }
}

/// Constructs a building of `params.building_type` in the city at time
/// `now`. Fails with `InsufficientResources` when the city lacks gold, wood
/// or stone for the template's price, and with `ArithmeticOverflow` when a
/// counter would overflow; a failure changes nothing. On success the price is
/// paid, the building is appended to the city's list, and the city's
/// population and score and the session's totals grow by the template's
/// bonuses.
pub fn build_structure(ctx: &mut BuildStructure, params: BuildStructureParams, now: i64) -> (r: Result<
    (Building, BuildingBuilt),
    GameError,
>)
    ensures
        ({
            let t = building_template(params.building_type);
            &&& r == Err::<(Building, BuildingBuilt), GameError>(GameError::InsufficientResources)
                <==> !can_afford(old(ctx).city.resources, t.cost)
            &&& r == Err::<(Building, BuildingBuilt), GameError>(GameError::ArithmeticOverflow)
                <==> can_afford(old(ctx).city.resources, t.cost) && !construction_fits(
                old(ctx).city,
                old(ctx).game,
                t,
            )
            &&& r.is_ok() <==> can_afford(old(ctx).city.resources, t.cost) && construction_fits(
                old(ctx).city,
                old(ctx).game,
                t,
            )
        }),
        r.is_err() ==> *final(ctx) == *old(ctx),
        old(ctx).game.wf() ==> final(ctx).game.wf(),
        r.is_ok() ==> {
            let t = building_template(params.building_type);
            let (building, event) = r.unwrap();
            let (c0, c1) = (old(ctx).city, final(ctx).city);
            &&& building == new_building(old(ctx).city_key, params.building_type, now)
            &&& event == (BuildingBuilt {
                city: old(ctx).city_key,
                building: old(ctx).building,
                building_type: params.building_type,
                level: 1,
            })
            &&& c1.resources == (CityResources {
                gold: (c0.resources.gold - t.cost.gold) as u64,
                wood: (c0.resources.wood - t.cost.wood) as u64,
                stone: (c0.resources.stone - t.cost.stone) as u64,
                ..c0.resources
            })
            &&& c1.buildings@ == c0.buildings@.push(
                BuildingRef { key: old(ctx).building, building_type: params.building_type },
            )
            &&& c1.population == c0.population + t.population_bonus
            &&& c1.score == c0.score + t.score_bonus
            &&& c1.last_updated == now
            &&& c1.same_identity(c0)
            &&& c1.ai_level == c0.ai_level
            &&& c1.strategy == c0.strategy
            &&& final(ctx).game == (Game {
                total_buildings: (old(ctx).game.total_buildings + 1) as u64,
                total_population: (old(ctx).game.total_population + t.population_bonus) as u64,
                ..old(ctx).game
            })
            &&& final(ctx).city_key == old(ctx).city_key
            &&& final(ctx).building == old(ctx).building
            &&& final(ctx).owner == old(ctx).owner
        },
{
    let template = get_building_template(params.building_type);
    if ctx.city.resources.gold < template.cost.gold {
        return Err(GameError::InsufficientResources);
    }
    if ctx.city.resources.wood < template.cost.wood {
        return Err(GameError::InsufficientResources);
    }
    if ctx.city.resources.stone < template.cost.stone {
        return Err(GameError::InsufficientResources);
    }
    let population = match ctx.city.population.checked_add(template.population_bonus) {
        Some(v) => v,
        None => return Err(GameError::ArithmeticOverflow),
    };
    let score = match ctx.city.score.checked_add(template.score_bonus) {
        Some(v) => v,
        None => return Err(GameError::ArithmeticOverflow),
    };
    let total_buildings = match ctx.game.total_buildings.checked_add(1) {
        Some(v) => v,
        None => return Err(GameError::ArithmeticOverflow),
    };
    let total_population = match ctx.game.total_population.checked_add(template.population_bonus) {
        Some(v) => v,
        None => return Err(GameError::ArithmeticOverflow),
    };

    ctx.city.resources.gold = ctx.city.resources.gold - template.cost.gold;
    ctx.city.resources.wood = ctx.city.resources.wood - template.cost.wood;
    ctx.city.resources.stone = ctx.city.resources.stone - template.cost.stone;

    let building = Building {
        city: ctx.city_key,
        building_type: params.building_type,
        level: 1,
        production_rate: template.production_rate,
        maintenance_cost: template.maintenance_cost,
        population_bonus: template.population_bonus,
        resource_bonus: template.resource_bonus,
        created_at: now,
    };
    ctx.city.buildings.push(BuildingRef { key: ctx.building, building_type: params.building_type });

    ctx.city.population = population;
    ctx.city.score = score;
    ctx.city.last_updated = now;

    ctx.game.total_buildings = total_buildings;
    ctx.game.total_population = total_population;

    let event = BuildingBuilt {
        city: ctx.city_key,
        building: ctx.building,
        building_type: params.building_type,
        level: 1,
    };
    Ok((building, event))
}

} // verus!

//! Building upgrades.

use vstd::prelude::*;
use anchor_lang::prelude::Pubkey;
use crate::entities::{Building, City, GameError, StructureUpgraded, UpgradeParams};
use crate::formulas::{calculate_upgrade_cost, upgrade_gold, upgrade_wood};
use crate::resources::{CityResources, u64_max};

verus! {

/// Production grows by half on each upgrade: the factor in tenths.
pub const PRODUCTION_GROWTH_TENTHS: u64 = 15;

/// Maintenance grows by a fifth on each upgrade: the factor in tenths.
pub const MAINTENANCE_GROWTH_TENTHS: u64 = 12;

/// Score a city earns per level that an upgrade reaches.
pub const UPGRADE_SCORE_PER_LEVEL: u64 = 50;

/// The accounts an upgrade works on: the building and its address, the
/// city that owns it, and the owner.
#[derive(Clone, Debug)]
pub struct UpgradeStructure {
    pub building: Building,
    pub building_key: Pubkey,
    pub city: City,
    pub owner: Pubkey,
}

/// Whether `city` can pay the gold and wood of an upgrade from `level`. The
/// stone price is not asked for.
pub open spec fn can_pay_upgrade(city: City, level: nat) -> bool {
    &&& upgrade_gold(level) <= city.resources.gold
    &&& upgrade_wood(level) <= city.resources.wood
}

/// Whether the scaled rates and the raised score of an upgrade all fit.
pub open spec fn upgrade_fits(building: Building, city: City) -> bool {
    &&& building.production_rate.scale_fits(PRODUCTION_GROWTH_TENTHS as nat)
    &&& building.maintenance_cost.scale_fits(MAINTENANCE_GROWTH_TENTHS as nat)
    &&& city.score + UPGRADE_SCORE_PER_LEVEL * (building.level + 1) <= u64_max()
}

/// Raises the building one level, at time `now`, if it is below
/// `params.max_level`. Fails with `MaxLevelReached` when it is not, with
/// `InsufficientResources` when the city lacks the gold or the wood of the
/// upgrade, and with `ArithmeticOverflow` when a scaled rate or the score
/// would overflow; a failure changes nothing. On success the gold and wood
/// prices are paid (stone is priced but not charged), production rates grow
/// by half and maintenance costs by a fifth, rounded down, and the city's
/// score grows by 50 times the new level.
pub fn upgrade_structure(ctx: &mut UpgradeStructure, params: UpgradeParams, now: i64) -> (r: Result<
    StructureUpgraded,
    GameError,
>)
    ensures
        ({
            let (b, c) = (old(ctx).building, old(ctx).city);
            &&& r == Err::<StructureUpgraded, GameError>(GameError::MaxLevelReached) <==> b.level
                >= params.max_level
            &&& r == Err::<StructureUpgraded, GameError>(GameError::InsufficientResources) <==> b.level
                < params.max_level && !can_pay_upgrade(c, b.level as nat)
            &&& r == Err::<StructureUpgraded, GameError>(GameError::ArithmeticOverflow) <==> b.level
                < params.max_level && can_pay_upgrade(c, b.level as nat) && !upgrade_fits(b, c)
            &&& r.is_ok() <==> b.level < params.max_level && can_pay_upgrade(c, b.level as nat)
                && upgrade_fits(b, c)
        }),
        r.is_err() ==> *final(ctx) == *old(ctx),
        r.is_ok() ==> {
            let (b0, c0) = (old(ctx).building, old(ctx).city);
            let (b1, c1) = (final(ctx).building, final(ctx).city);
            &&& b1 == (Building {
                level: (b0.level + 1) as u8,
                production_rate: b0.production_rate.spec_scaled(PRODUCTION_GROWTH_TENTHS as nat),
                maintenance_cost: b0.maintenance_cost.spec_scaled(MAINTENANCE_GROWTH_TENTHS as nat),
                ..b0
            })
            &&& c1.resources == (CityResources {
                gold: (c0.resources.gold - upgrade_gold(b0.level as nat)) as u64,
                wood: (c0.resources.wood - upgrade_wood(b0.level as nat)) as u64,
                ..c0.resources
            })
            &&& c1.score == c0.score + UPGRADE_SCORE_PER_LEVEL * b1.level
            &&& c1.last_updated == now
            &&& c1.population == c0.population
            &&& c1.buildings@ == c0.buildings@
            &&& c1.same_identity(c0)
            &&& c1.ai_level == c0.ai_level
            &&& c1.strategy == c0.strategy
            &&& final(ctx).building_key == old(ctx).building_key
            &&& final(ctx).owner == old(ctx).owner
            &&& r.unwrap() == (StructureUpgraded { building: old(ctx).building_key, new_level: b1.level })
        },
{
    if ctx.building.level >= params.max_level {
        return Err(GameError::MaxLevelReached);
    }
    let cost = match calculate_upgrade_cost(ctx.building.level) {
        Some(cost) => cost,
        None => return Err(GameError::InsufficientResources),
    };
    if ctx.city.resources.gold < cost.gold {
        return Err(GameError::InsufficientResources);
    }
    if ctx.city.resources.wood < cost.wood {
        return Err(GameError::InsufficientResources);
    }
    let new_level = ctx.building.level + 1;
    let production_rate = match ctx.building.production_rate.scaled(PRODUCTION_GROWTH_TENTHS) {
        Some(t) => t,
        None => return Err(GameError::ArithmeticOverflow),
    };
    let maintenance_cost = match ctx.building.maintenance_cost.scaled(MAINTENANCE_GROWTH_TENTHS) {
        Some(t) => t,
        None => return Err(GameError::ArithmeticOverflow),
    };
    let score = match ctx.city.score.checked_add(UPGRADE_SCORE_PER_LEVEL * new_level as u64) {
        Some(v) => v,
        None => return Err(GameError::ArithmeticOverflow),
    };

    ctx.city.resources.gold = ctx.city.resources.gold - cost.gold;
    ctx.city.resources.wood = ctx.city.resources.wood - cost.wood;

    ctx.building.level = new_level;
    ctx.building.production_rate = production_rate;
    ctx.building.maintenance_cost = maintenance_cost;

    ctx.city.score = score;
    ctx.city.last_updated = now;

    Ok(StructureUpgraded { building: ctx.building_key, new_level })
}

} // verus!

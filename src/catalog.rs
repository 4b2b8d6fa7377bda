//! The fixed catalog of building templates.

use vstd::prelude::*;
use crate::resources::{BuildingCost, ResourceTable};

verus! {

/// The kinds of building a city can hold.
#[derive(Clone, Copy, Debug, PartialEq, Eq, Structural)]
pub enum BuildingType {
    House,
    Farm,
    Mine,
    LumberMill,
    PowerPlant,
    Factory,
    Hospital,
    School,
    ResearchLab,
    TradingPost,
    DefenseTower,
}

/// What a building type costs and yields.
#[derive(Clone, Copy, Debug, PartialEq, Eq, Structural)]
pub struct BuildingData {
    pub cost: BuildingCost,
    pub production_rate: ResourceTable,
    pub maintenance_cost: ResourceTable,
    pub population_bonus: u64,
    pub resource_bonus: ResourceTable,
    pub score_bonus: u64,
}

/// A table of the five amounts, in resource order.
pub open spec fn table(gold: u64, wood: u64, stone: u64, food: u64, energy: u64) -> ResourceTable {
    ResourceTable { gold, wood, stone, food, energy }
}

/// A price of gold, wood and stone.
pub open spec fn cost(gold: u64, wood: u64, stone: u64) -> BuildingCost {
    BuildingCost { gold, wood, stone }
}

/// The catalog. House, Farm, Mine, LumberMill and PowerPlant have templates of
/// their own; every other type shares one general-purpose template.
pub open spec fn building_template(building_type: BuildingType) -> BuildingData {
    match building_type {
        BuildingType::House => BuildingData {
            cost: cost(100, 50, 25),
            production_rate: table(0, 0, 0, 0, 0),
            maintenance_cost: table(0, 0, 0, 0, 0),
            population_bonus: 50,
            resource_bonus: table(0, 0, 0, 0, 0),
            score_bonus: 10,
        },
        BuildingType::Farm => BuildingData {
            cost: cost(50, 100, 0),
            production_rate: table(0, 0, 0, 10, 0),
            maintenance_cost: table(0, 0, 0, 0, 0),
            population_bonus: 10,
            resource_bonus: table(0, 0, 0, 5, 0),
            score_bonus: 15,
        },
        BuildingType::Mine => BuildingData {
            cost: cost(200, 50, 100),
            production_rate: table(5, 0, 10, 0, 0),
            maintenance_cost: table(0, 0, 0, 0, 5),
            population_bonus: 0,
            resource_bonus: table(0, 0, 0, 0, 0),
            score_bonus: 20,
        },
        BuildingType::LumberMill => BuildingData {
            cost: cost(100, 50, 25),
            production_rate: table(0, 15, 0, 0, 0),
            maintenance_cost: table(0, 0, 0, 0, 0),
            population_bonus: 5,
            resource_bonus: table(0, 0, 0, 0, 0),
            score_bonus: 15,
        },
        BuildingType::PowerPlant => BuildingData {
            cost: cost(300, 100, 150),
            production_rate: table(0, 0, 0, 0, 20),
            maintenance_cost: table(0, 0, 0, 0, 0),
            population_bonus: 10,
            resource_bonus: table(0, 0, 0, 0, 0),
            score_bonus: 25,
        },
        _ => BuildingData {
            cost: cost(500, 250, 250),
            production_rate: table(0, 0, 0, 0, 0),
            maintenance_cost: table(0, 0, 0, 0, 0),
            population_bonus: 20,
            resource_bonus: table(0, 0, 0, 0, 0),
            score_bonus: 30,
        },
    }
}

/// The template of `building_type`. Every type has one.
pub fn get_building_template(building_type: BuildingType) -> (r: BuildingData)
    ensures
        r == building_template(building_type),
{
    let none = ResourceTable { gold: 0, wood: 0, stone: 0, food: 0, energy: 0 };
    match building_type {
        BuildingType::House => BuildingData {
            cost: BuildingCost { gold: 100, wood: 50, stone: 25 },
            production_rate: none,
            maintenance_cost: none,
            population_bonus: 50,
            resource_bonus: none,
            score_bonus: 10,
        },
        BuildingType::Farm => BuildingData {
            cost: BuildingCost { gold: 50, wood: 100, stone: 0 },
            production_rate: ResourceTable { food: 10, ..none },
            maintenance_cost: none,
            population_bonus: 10,
            resource_bonus: ResourceTable { food: 5, ..none },
            score_bonus: 15,
        },
        BuildingType::Mine => BuildingData {
            cost: BuildingCost { gold: 200, wood: 50, stone: 100 },
            production_rate: ResourceTable { gold: 5, stone: 10, ..none },
            maintenance_cost: ResourceTable { energy: 5, ..none },
            population_bonus: 0,
            resource_bonus: none,
            score_bonus: 20,
        },
        BuildingType::LumberMill => BuildingData {
            cost: BuildingCost { gold: 100, wood: 50, stone: 25 },
            production_rate: ResourceTable { wood: 15, ..none },
            maintenance_cost: none,
            population_bonus: 5,
            resource_bonus: none,
            score_bonus: 15,
        },
        BuildingType::PowerPlant => BuildingData {
            cost: BuildingCost { gold: 300, wood: 100, stone: 150 },
            production_rate: ResourceTable { energy: 20, ..none },
            maintenance_cost: none,
            population_bonus: 10,
            resource_bonus: none,
            score_bonus: 25,
        },
        _ => BuildingData {
            cost: BuildingCost { gold: 500, wood: 250, stone: 250 },
            production_rate: none,
            maintenance_cost: none,
            population_bonus: 20,
            resource_bonus: none,
            score_bonus: 30,
        },
    }
}

} // verus!

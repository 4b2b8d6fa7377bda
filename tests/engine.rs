use ai_city::catalog::{get_building_template, BuildingType};
use ai_city::construction::{build_structure, BuildStructure};
use ai_city::entities::{
    AIStrategyParams, BuildStructureParams, Building, BuildingRef, City, CityStrategy,
    CreateCityParams, Game, GameError, GameParams, GameState, UpgradeParams,
};
use ai_city::formulas::{
    calculate_ai_bonus, calculate_population_growth, calculate_reward, calculate_upgrade_cost,
    growth_from,
};
use ai_city::resources::{scale_amount, CityResources, ResourceTable, ResourceType};
use ai_city::session::{
    create_city, initialize_game, update_ai_strategy, CreateCity, InitializeGame, UpdateAIStrategy,
};
use ai_city::tick::{city_production, game_tick, GameTick};
use ai_city::upgrade::{upgrade_structure, UpgradeStructure};
use anchor_lang::prelude::Pubkey;

fn key(n: u8) -> Pubkey {
    Pubkey::new_from_array([n; 32])
}

fn game(max_cities: u32) -> Game {
    let ctx = InitializeGame { admin: key(1), token_mint: key(2), treasury: key(3) };
    let params = GameParams {
        name: "Session".to_string(),
        description: "A test session".to_string(),
        max_cities,
        fee_percentage: 5,
    };
    initialize_game(&ctx, params, 100)
}

fn city_params(name: &str, ai_level: u8) -> CreateCityParams {
    CreateCityParams { name: name.to_string(), ai_level, strategy: CityStrategy::Balanced }
}

fn new_city(ai_level: u8) -> City {
    let mut ctx = CreateCity { game: game(10), city: key(10), owner: key(11), city_token: key(12) };
    let (city, _) = create_city(&mut ctx, city_params("A", ai_level), 200).unwrap();
    city
}

fn with_buildings(mut city: City, types: &[BuildingType]) -> City {
    for (i, t) in types.iter().enumerate() {
        city.buildings.push(BuildingRef { key: key(100 + i as u8), building_type: *t });
    }
    city
}

fn building(production_rate: ResourceTable, maintenance_cost: ResourceTable, level: u8) -> Building {
    Building {
        city: key(10),
        building_type: BuildingType::Mine,
        level,
        production_rate,
        maintenance_cost,
        population_bonus: 0,
        resource_bonus: ResourceTable::empty(),
        created_at: 0,
    }
}

fn table(gold: u64, wood: u64, stone: u64, food: u64, energy: u64) -> ResourceTable {
    ResourceTable { gold, wood, stone, food, energy }
}

#[test]
fn initialize_game_zeroes_counters() {
    let g = game(7);
    assert_eq!(g.admin, key(1));
    assert_eq!(g.token_mint, key(2));
    assert_eq!(g.treasury, key(3));
    assert_eq!(g.name, "Session");
    assert_eq!(g.description, "A test session");
    assert_eq!(g.max_cities, 7);
    assert_eq!(g.current_cities, 0);
    assert_eq!(g.game_state, GameState::Active);
    assert_eq!(g.fee_percentage, 5);
    assert_eq!(g.reward_pool, 0);
    assert_eq!(g.total_buildings, 0);
    assert_eq!(g.total_population, 0);
    assert_eq!(g.cycle, 0);
    assert_eq!(g.last_update, 100);
}

#[test]
fn create_city_starting_state() {
    let mut ctx = CreateCity { game: game(3), city: key(10), owner: key(11), city_token: key(12) };
    let (city, event) = create_city(&mut ctx, city_params("Alpha", 4), 250).unwrap();
    assert_eq!(city.owner, key(11));
    assert_eq!(city.name, "Alpha");
    assert_eq!(city.level, 1);
    assert_eq!(city.population, 100);
    assert_eq!(
        city.resources,
        CityResources { gold: 1000, wood: 500, stone: 250, food: 1000, energy: 500 }
    );
    assert!(city.buildings.is_empty());
    assert_eq!(city.score, 100);
    assert_eq!(city.created_at, 250);
    assert_eq!(city.last_updated, 250);
    assert_eq!(city.ai_level, 4);
    assert_eq!(city.strategy, CityStrategy::Balanced);
    assert_eq!(city.token_account, key(12));
    assert_eq!(ctx.game.current_cities, 1);
    assert_eq!(ctx.game.total_population, 100);
    assert_eq!(event.city, key(10));
    assert_eq!(event.owner, key(11));
    assert_eq!(event.name, "Alpha");
    assert_eq!(event.level, 1);
}

#[test]
fn creation_blocked_exactly_at_capacity() {
    let mut ctx = CreateCity { game: game(2), city: key(10), owner: key(11), city_token: key(12) };
    assert!(create_city(&mut ctx, city_params("A", 0), 1).is_ok());
    assert!(create_city(&mut ctx, city_params("B", 0), 2).is_ok());
    assert_eq!(ctx.game.current_cities, 2);
    let third = create_city(&mut ctx, city_params("C", 0), 3);
    assert_eq!(third.err(), Some(GameError::CityLimitReached));
    assert_eq!(ctx.game.current_cities, 2);
    assert_eq!(ctx.game.total_population, 200);
}

#[test]
fn creation_in_zero_capacity_session_fails() {
    let mut ctx = CreateCity { game: game(0), city: key(10), owner: key(11), city_token: key(12) };
    let r = create_city(&mut ctx, city_params("A", 0), 1);
    assert_eq!(r.err(), Some(GameError::CityLimitReached));
    assert_eq!(ctx.game.current_cities, 0);
}

#[test]
fn creation_overflowing_population_total_fails() {
    let mut g = game(2);
    g.total_population = u64::MAX - 50;
    let mut ctx = CreateCity { game: g, city: key(10), owner: key(11), city_token: key(12) };
    let r = create_city(&mut ctx, city_params("A", 0), 1);
    assert_eq!(r.err(), Some(GameError::ArithmeticOverflow));
    assert_eq!(ctx.game.current_cities, 0);
    assert_eq!(ctx.game.total_population, u64::MAX - 50);
}

#[test]
fn catalog_templates() {
    let house = get_building_template(BuildingType::House);
    assert_eq!((house.cost.gold, house.cost.wood, house.cost.stone), (100, 50, 25));
    assert_eq!(house.production_rate, ResourceTable::empty());
    assert_eq!(house.population_bonus, 50);
    assert_eq!(house.score_bonus, 10);

    let farm = get_building_template(BuildingType::Farm);
    assert_eq!((farm.cost.gold, farm.cost.wood, farm.cost.stone), (50, 100, 0));
    assert_eq!(farm.production_rate, table(0, 0, 0, 10, 0));
    assert_eq!(farm.resource_bonus, table(0, 0, 0, 5, 0));
    assert_eq!(farm.population_bonus, 10);
    assert_eq!(farm.score_bonus, 15);

    let mine = get_building_template(BuildingType::Mine);
    assert_eq!((mine.cost.gold, mine.cost.wood, mine.cost.stone), (200, 50, 100));
    assert_eq!(mine.production_rate, table(5, 0, 10, 0, 0));
    assert_eq!(mine.maintenance_cost, table(0, 0, 0, 0, 5));
    assert_eq!(mine.population_bonus, 0);
    assert_eq!(mine.score_bonus, 20);

    let mill = get_building_template(BuildingType::LumberMill);
    assert_eq!((mill.cost.gold, mill.cost.wood, mill.cost.stone), (100, 50, 25));
    assert_eq!(mill.production_rate, table(0, 15, 0, 0, 0));
    assert_eq!(mill.population_bonus, 5);
    assert_eq!(mill.score_bonus, 15);

    let plant = get_building_template(BuildingType::PowerPlant);
    assert_eq!((plant.cost.gold, plant.cost.wood, plant.cost.stone), (300, 100, 150));
    assert_eq!(plant.production_rate, table(0, 0, 0, 0, 20));
    assert_eq!(plant.population_bonus, 10);
    assert_eq!(plant.score_bonus, 25);

    for t in [
        BuildingType::Factory,
        BuildingType::Hospital,
        BuildingType::School,
        BuildingType::ResearchLab,
        BuildingType::TradingPost,
        BuildingType::DefenseTower,
    ] {
        let d = get_building_template(t);
        assert_eq!((d.cost.gold, d.cost.wood, d.cost.stone), (500, 250, 250));
        assert_eq!(d.production_rate, ResourceTable::empty());
        assert_eq!(d.maintenance_cost, ResourceTable::empty());
        assert_eq!(d.resource_bonus, ResourceTable::empty());
        assert_eq!(d.population_bonus, 20);
        assert_eq!(d.score_bonus, 30);
    }
}

fn build_ctx(city: City) -> BuildStructure {
    BuildStructure { city, city_key: key(10), building: key(50), owner: key(11), game: game(10) }
}

#[test]
fn construction_pays_and_records() {
    let mut ctx = build_ctx(new_city(0));
    let params = BuildStructureParams { building_type: BuildingType::Mine, location_x: 3, location_y: 4 };
    let (b, event) = build_structure(&mut ctx, params, 300).unwrap();
    assert_eq!(ctx.city.resources.gold, 800);
    assert_eq!(ctx.city.resources.wood, 450);
    assert_eq!(ctx.city.resources.stone, 150);
    assert_eq!(ctx.city.buildings.len(), 1);
    assert_eq!(ctx.city.buildings[0].key, key(50));
    assert_eq!(ctx.city.buildings[0].building_type, BuildingType::Mine);
    assert_eq!(ctx.city.population, 100);
    assert_eq!(ctx.city.score, 120);
    assert_eq!(ctx.city.last_updated, 300);
    assert_eq!(ctx.game.total_buildings, 1);
    assert_eq!(b.city, key(10));
    assert_eq!(b.level, 1);
    assert_eq!(b.production_rate, table(5, 0, 10, 0, 0));
    assert_eq!(b.maintenance_cost, table(0, 0, 0, 0, 5));
    assert_eq!(b.created_at, 300);
    assert_eq!(event.city, key(10));
    assert_eq!(event.building, key(50));
    assert_eq!(event.building_type, BuildingType::Mine);
    assert_eq!(event.level, 1);
}

fn assert_construction_refused(resources: CityResources, building_type: BuildingType) {
    let mut city = new_city(0);
    city.resources = resources;
    let mut ctx = build_ctx(city);
    let params = BuildStructureParams { building_type, location_x: 0, location_y: 0 };
    let r = build_structure(&mut ctx, params, 300);
    assert_eq!(r.err(), Some(GameError::InsufficientResources));
    assert_eq!(ctx.city.resources, resources);
    assert!(ctx.city.buildings.is_empty());
    assert_eq!(ctx.city.population, 100);
    assert_eq!(ctx.city.score, 100);
    assert_eq!(ctx.city.last_updated, 200);
    assert_eq!(ctx.game.total_buildings, 0);
}

#[test]
fn construction_is_atomic_on_each_shortage() {
    // PowerPlant costs 300 gold, 100 wood, 150 stone.
    let enough = CityResources { gold: 300, wood: 100, stone: 150, food: 7, energy: 9 };
    assert_construction_refused(CityResources { gold: 299, ..enough }, BuildingType::PowerPlant);
    assert_construction_refused(CityResources { wood: 99, ..enough }, BuildingType::PowerPlant);
    assert_construction_refused(CityResources { stone: 149, ..enough }, BuildingType::PowerPlant);

    let mut city = new_city(0);
    city.resources = enough;
    let mut ctx = build_ctx(city);
    let params = BuildStructureParams { building_type: BuildingType::PowerPlant, location_x: 0, location_y: 0 };
    assert!(build_structure(&mut ctx, params, 300).is_ok());
    assert_eq!(ctx.city.resources, CityResources { gold: 0, wood: 0, stone: 0, food: 7, energy: 9 });
}

#[test]
fn construction_overflowing_score_fails() {
    let mut city = new_city(0);
    city.score = u64::MAX - 5;
    let mut ctx = build_ctx(city);
    let params = BuildStructureParams { building_type: BuildingType::House, location_x: 0, location_y: 0 };
    let r = build_structure(&mut ctx, params, 300);
    assert_eq!(r.err(), Some(GameError::ArithmeticOverflow));
    assert_eq!(ctx.city.resources.gold, 1000);
    assert!(ctx.city.buildings.is_empty());
}

#[test]
fn upgrade_cost_doubles_per_level() {
    let c0 = calculate_upgrade_cost(0).unwrap();
    assert_eq!((c0.gold, c0.wood, c0.stone), (200, 100, 100));
    let c1 = calculate_upgrade_cost(1).unwrap();
    assert_eq!((c1.gold, c1.wood, c1.stone), (400, 200, 200));
    let c3 = calculate_upgrade_cost(3).unwrap();
    assert_eq!((c3.gold, c3.wood, c3.stone), (1600, 800, 800));
    let c56 = calculate_upgrade_cost(56).unwrap();
    assert_eq!(c56.gold, 200u64 << 56);
    assert_eq!(c56.wood, 100u64 << 56);
    assert!(calculate_upgrade_cost(57).is_none());
    assert!(calculate_upgrade_cost(255).is_none());
}

fn upgrade_ctx(b: Building, resources: CityResources) -> UpgradeStructure {
    let mut city = new_city(0);
    city.resources = resources;
    UpgradeStructure { building: b, building_key: key(60), city, owner: key(11) }
}

#[test]
fn upgrade_charges_gold_and_wood_but_not_stone() {
    let resources = CityResources { gold: 1000, wood: 500, stone: 250, food: 1, energy: 2 };
    let mut ctx = upgrade_ctx(building(table(5, 0, 10, 0, 0), table(0, 0, 0, 0, 5), 1), resources);
    let event = upgrade_structure(&mut ctx, UpgradeParams { max_level: 5 }, 400).unwrap();
    assert_eq!(ctx.city.resources.gold, 600);
    assert_eq!(ctx.city.resources.wood, 300);
    assert_eq!(ctx.city.resources.stone, 250);
    assert_eq!(ctx.city.resources.food, 1);
    assert_eq!(ctx.city.resources.energy, 2);
    assert_eq!(ctx.building.level, 2);
    assert_eq!(ctx.city.score, 100 + 100);
    assert_eq!(ctx.city.last_updated, 400);
    assert_eq!(event.building, key(60));
    assert_eq!(event.new_level, 2);
}

#[test]
fn upgrade_scales_rates() {
    let resources = CityResources { gold: 1000, wood: 500, stone: 0, food: 0, energy: 0 };
    let mut ctx = upgrade_ctx(building(table(5, 15, 10, 1, 7), table(5, 10, 0, 9, 3), 0), resources);
    upgrade_structure(&mut ctx, UpgradeParams { max_level: 5 }, 400).unwrap();
    assert_eq!(ctx.building.production_rate, table(7, 22, 15, 1, 10));
    assert_eq!(ctx.building.maintenance_cost, table(6, 12, 0, 10, 3));
    assert_eq!(ctx.city.resources.gold, 800);
    assert_eq!(ctx.city.resources.wood, 400);
    assert_eq!(ctx.city.score, 150);
}

#[test]
fn upgrade_at_cap_fails() {
    let resources = CityResources { gold: 1000, wood: 500, stone: 0, food: 0, energy: 0 };
    let mut ctx = upgrade_ctx(building(table(5, 0, 0, 0, 0), ResourceTable::empty(), 3), resources);
    let r = upgrade_structure(&mut ctx, UpgradeParams { max_level: 3 }, 400);
    assert_eq!(r.err(), Some(GameError::MaxLevelReached));
    assert_eq!(ctx.building.level, 3);
    assert_eq!(ctx.city.resources, resources);
}

#[test]
fn upgrade_short_of_gold_or_wood_fails() {
    // Level 2 costs 800 gold and 400 wood.
    for resources in [
        CityResources { gold: 799, wood: 400, stone: 0, food: 0, energy: 0 },
        CityResources { gold: 800, wood: 399, stone: 0, food: 0, energy: 0 },
    ] {
        let mut ctx = upgrade_ctx(building(table(5, 0, 0, 0, 0), ResourceTable::empty(), 2), resources);
        let r = upgrade_structure(&mut ctx, UpgradeParams { max_level: 9 }, 400);
        assert_eq!(r.err(), Some(GameError::InsufficientResources));
        assert_eq!(ctx.building.level, 2);
        assert_eq!(ctx.building.production_rate, table(5, 0, 0, 0, 0));
        assert_eq!(ctx.city.resources, resources);
        assert_eq!(ctx.city.score, 100);
    }
}

#[test]
fn upgrade_overflowing_rate_fails() {
    let resources = CityResources { gold: 1000, wood: 500, stone: 0, food: 0, energy: 0 };
    let mut ctx = upgrade_ctx(building(table(0, 0, 0, u64::MAX, 0), ResourceTable::empty(), 0), resources);
    let r = upgrade_structure(&mut ctx, UpgradeParams { max_level: 9 }, 400);
    assert_eq!(r.err(), Some(GameError::ArithmeticOverflow));
    assert_eq!(ctx.building.level, 0);
    assert_eq!(ctx.city.resources, resources);
}

#[test]
fn growth_example() {
    assert_eq!(growth_from(1000, 2500, 5), 6);
    let mut city = with_buildings(new_city(0), &[BuildingType::House; 5]);
    city.population = 1000;
    city.resources.food = 2500;
    assert_eq!(calculate_population_growth(&city), 6);
}

#[test]
fn growth_food_and_housing_factors() {
    // food exactly twice the population is not more than twice: factor 1.0
    assert_eq!(growth_from(1000, 2000, 10), 10);
    // food equal to the population: factor 0.5
    assert_eq!(growth_from(1000, 1000, 10), 5);
    // housing factor is capped at 2.0
    assert_eq!(growth_from(1000, 5000, 20), 24);
    assert_eq!(growth_from(1000, 5000, 300), 24);
    // no buildings, no growth
    assert_eq!(growth_from(1000, 5000, 0), 0);
    // population below 100 has no base
    assert_eq!(growth_from(99, 5000, 20), 0);
    // food equal to a full population: factor 0.5, housing 2.0
    assert_eq!(growth_from(u64::MAX, u64::MAX, 20), u64::MAX / 100);
    assert_eq!(growth_from(u64::MAX / 3, u64::MAX, 20), (u64::MAX / 3 / 100) * 24 / 10);
}

#[test]
fn reward_example() {
    let mut city = new_city(0);
    city.score = 2500;
    assert_eq!(calculate_reward(&city), 2);
    city.score = 999;
    assert_eq!(calculate_reward(&city), 0);
}

#[test]
fn ai_multiplier_example() {
    assert_eq!(calculate_ai_bonus(0), 10);
    assert_eq!(calculate_ai_bonus(3), 13);
    assert_eq!(scale_amount(10, calculate_ai_bonus(3)), Some(13));
    assert_eq!(scale_amount(15, calculate_ai_bonus(1)), Some(16));
    assert_eq!(scale_amount(u64::MAX, 11), None);
    let city = with_buildings(new_city(3), &[BuildingType::Farm]);
    let p = city_production(&city).unwrap();
    assert_eq!(p.get(ResourceType::Food), 13);
    assert_eq!(p, table(0, 0, 0, 13, 0));
}

#[test]
fn production_sums_catalog_rates() {
    let city = with_buildings(
        new_city(2),
        &[BuildingType::Mine, BuildingType::Mine, BuildingType::LumberMill, BuildingType::PowerPlant, BuildingType::School],
    );
    // multiplier 1.2: mine gold 5 -> 6, mine stone 10 -> 12, wood 15 -> 18, energy 20 -> 24
    assert_eq!(city_production(&city).unwrap(), table(12, 18, 24, 0, 24));
}

fn tick_ctx(city: City) -> GameTick {
    GameTick { city, city_key: key(10), game: game(10) }
}

#[test]
fn tick_adds_reward_to_gold() {
    let mut city = new_city(0);
    city.score = 2500;
    let mut ctx = tick_ctx(city);
    let event = game_tick(&mut ctx, 900).unwrap();
    assert_eq!(ctx.city.resources.gold, 1002);
    assert_eq!(ctx.game.cycle, 1);
    assert_eq!(ctx.game.last_update, 900);
    assert_eq!(ctx.city.last_updated, 900);
    assert_eq!(event.city, key(10));
    assert_eq!(event.cycle, 1);
    assert_eq!(event.population, 100);
    assert_eq!(event.gold, 1002);
}

#[test]
fn tick_applies_multiplier_and_growth() {
    let mut city = with_buildings(new_city(3), &[BuildingType::Farm; 5]);
    city.population = 1000;
    city.resources.food = 2435;
    let mut ctx = tick_ctx(city);
    game_tick(&mut ctx, 900).unwrap();
    // five farms at 1.3: 65 food, reaching 2500 before growth is computed
    assert_eq!(ctx.city.resources.food, 2500);
    assert_eq!(ctx.city.population, 1006);
    assert_eq!(ctx.game.total_population, 6);
}

#[test]
fn tick_overflow_changes_nothing() {
    let mut city = with_buildings(new_city(0), &[BuildingType::Mine]);
    city.resources.stone = u64::MAX - 3;
    let mut ctx = tick_ctx(city);
    let r = game_tick(&mut ctx, 900);
    assert_eq!(r.err(), Some(GameError::ArithmeticOverflow));
    assert_eq!(ctx.city.resources.stone, u64::MAX - 3);
    assert_eq!(ctx.city.resources.gold, 1000);
    assert_eq!(ctx.game.cycle, 0);
    assert_eq!(ctx.city.last_updated, 200);

    let mut city = new_city(0);
    city.score = 5000;
    city.resources.gold = u64::MAX - 1;
    let mut ctx = tick_ctx(city);
    assert_eq!(game_tick(&mut ctx, 900).err(), Some(GameError::ArithmeticOverflow));
    assert_eq!(ctx.city.resources.gold, u64::MAX - 1);
}

#[test]
fn strategy_update_twice_is_identical() {
    let mut ctx = UpdateAIStrategy { city: new_city(0), city_key: key(10), owner: key(11) };
    let params = AIStrategyParams { ai_level: 7, strategy: CityStrategy::ResearchFocus };
    let first = update_ai_strategy(&mut ctx, params);
    let after_first = format!("{:?}", ctx.city);
    let second = update_ai_strategy(&mut ctx, params);
    let after_second = format!("{:?}", ctx.city);
    assert_eq!(after_first, after_second);
    assert_eq!(format!("{:?}", first), format!("{:?}", second));
    assert_eq!(first.city, key(10));
    assert_eq!(first.ai_level, 7);
    assert_eq!(first.strategy, CityStrategy::ResearchFocus);
    assert_eq!(ctx.city.ai_level, 7);
    assert_eq!(ctx.city.strategy, CityStrategy::ResearchFocus);
    assert_eq!(ctx.city.resources.gold, 1000);
}

#[test]
fn end_to_end_session() {
    let g = game(1);
    let mut create = CreateCity { game: g, city: key(10), owner: key(11), city_token: key(12) };
    let (city, _) = create_city(&mut create, city_params("A", 0), 200).unwrap();
    assert_eq!(
        city.resources,
        CityResources { gold: 1000, wood: 500, stone: 250, food: 1000, energy: 500 }
    );
    assert_eq!(city.population, 100);
    assert_eq!(city.score, 100);

    let mut build = BuildStructure { city, city_key: key(10), building: key(50), owner: key(11), game: create.game };
    let params = BuildStructureParams { building_type: BuildingType::Farm, location_x: 1, location_y: 2 };
    build_structure(&mut build, params, 300).unwrap();
    assert_eq!(build.city.resources.gold, 950);
    assert_eq!(build.city.resources.wood, 400);
    assert_eq!(build.city.resources.stone, 250);
    assert_eq!(build.city.population, 110);
    assert_eq!(build.city.score, 115);

    let mut tick = GameTick { city: build.city, city_key: key(10), game: build.game };
    let event = game_tick(&mut tick, 400).unwrap();
    assert_eq!(tick.city.resources.food, 1010);
    assert_eq!(tick.city.population, 110);
    assert_eq!(tick.city.resources.gold, 950);
    assert_eq!(tick.game.cycle, 1);
    assert_eq!(tick.game.total_population, 110);
    assert_eq!(event.population, 110);
    assert_eq!(event.gold, 950);

    let mut create = CreateCity { game: tick.game, city: key(20), owner: key(21), city_token: key(22) };
    let r = create_city(&mut create, city_params("B", 0), 500);
    assert_eq!(r.err(), Some(GameError::CityLimitReached));
    assert_eq!(create.game.current_cities, 1);
}

#[test]
fn error_messages() {
    assert_eq!(GameError::CityLimitReached.message(), "City limit has been reached");
    assert_eq!(GameError::InsufficientResources.message(), "Insufficient resources to perform this action");
    assert_eq!(GameError::MaxLevelReached.message(), "Building has reached maximum level");
    assert_eq!(GameError::InvalidBuildingType.message(), "Invalid building type");
    assert_eq!(GameError::Unauthorized.message(), "Not authorized to perform this action");
    assert_eq!(GameError::GameNotActive.message(), "Game is not in active state");
}

#[test]
fn cloned_records_keep_their_addresses() {
    let g = game(4);
    let copy = g.clone();
    assert_eq!(copy.admin, key(1));
    assert_eq!(copy.treasury, key(3));
    let city = with_buildings(new_city(0), &[BuildingType::Farm]);
    let copy = city.clone();
    assert_eq!(copy.owner, key(11));
    assert_eq!(copy.token_account, key(12));
    assert_eq!(copy.buildings[0].key, key(100));
}

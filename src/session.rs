//! Session creation, city creation and strategy changes.

use vstd::prelude::*;
use anchor_lang::prelude::Pubkey;
use crate::entities::{
    AIStrategyParams, AIStrategyUpdated, City, CityCreated, CityStrategy, CreateCityParams, Game,
    GameError, GameParams, GameState,
};
use crate::resources::{CityResources, u64_max};

verus! {

/// The population a new city starts with.
pub const STARTING_POPULATION: u64 = 100;

/// The score a new city starts with.
pub const STARTING_SCORE: u64 = 100;

/// The accounts a session is created with.
#[derive(Clone, Copy, Debug)]
pub struct InitializeGame {
    pub admin: Pubkey,
    pub token_mint: Pubkey,
    pub treasury: Pubkey,
}

/// A fresh session: the given references and parameters, every counter at
/// zero, active, last updated at `now`.
pub open spec fn initial_game(ctx: InitializeGame, params: GameParams, now: i64) -> Game {
    Game {
        admin: ctx.admin,
        token_mint: ctx.token_mint,
        treasury: ctx.treasury,
        name: params.name,
        description: params.description,
        max_cities: params.max_cities,
        current_cities: 0,
        game_state: GameState::Active,
        fee_percentage: params.fee_percentage,
        reward_pool: 0,
        total_buildings: 0,
        total_population: 0,
        cycle: 0,
        last_update: now,
    }
}

/// Creates a session at time `now`.
pub fn initialize_game(ctx: &InitializeGame, params: GameParams, now: i64) -> (game: Game)
    ensures
        game == initial_game(*ctx, params, now),
        game.wf(),
{
    Game {
        admin: ctx.admin,
        token_mint: ctx.token_mint,
        treasury: ctx.treasury,
        name: params.name,
        description: params.description,
        max_cities: params.max_cities,
        current_cities: 0,
        game_state: GameState::Active,
        fee_percentage: params.fee_percentage,
        reward_pool: 0,
        total_buildings: 0,
        total_population: 0,
        cycle: 0,
        last_update: now,
    }
}

/// The accounts a city is created with: the session, and the addresses of
/// the new city, its owner and its token account.
#[derive(Clone, Debug)]
pub struct CreateCity {
    pub game: Game,
    pub city: Pubkey,
    pub owner: Pubkey,
    pub city_token: Pubkey,
}

/// The starting balances of every city.
pub open spec fn starting_resources() -> CityResources {
    CityResources { gold: 1000, wood: 500, stone: 250, food: 1000, energy: 500 }
}

/// Whether `game` has room for one more city.
pub open spec fn has_room(game: Game) -> bool {
    game.current_cities < game.max_cities
}

/// Whether adding a city's starting population to `game`'s total fits.
pub open spec fn creation_fits(game: Game) -> bool {
    game.total_population + STARTING_POPULATION <= u64_max()
}

/// `game` after one more city joined it.
pub open spec fn game_with_new_city(game: Game) -> Game {
    Game {
        current_cities: (game.current_cities + 1) as u32,
        total_population: (game.total_population + STARTING_POPULATION) as u64,
        ..game
    }
}

/// Creates a city in the session of `ctx`, owned by `ctx.owner`, at time
/// `now`. Fails with `CityLimitReached` when the session is full, and with
/// `ArithmeticOverflow` when its population total would overflow; a failure
/// changes nothing.
pub fn create_city(ctx: &mut CreateCity, params: CreateCityParams, now: i64) -> (r: Result<
    (City, CityCreated),
    GameError,
>)
    ensures
        r == Err::<(City, CityCreated), GameError>(GameError::CityLimitReached) <==> !has_room(
            old(ctx).game,
        ),
        r == Err::<(City, CityCreated), GameError>(GameError::ArithmeticOverflow) <==> has_room(
            old(ctx).game,
        ) && !creation_fits(old(ctx).game),
        r.is_ok() <==> has_room(old(ctx).game) && creation_fits(old(ctx).game),
        r.is_err() ==> *final(ctx) == *old(ctx),
        r.is_ok() ==> {
            let (city, event) = r.unwrap();
            &&& final(ctx).game == game_with_new_city(old(ctx).game)
            &&& final(ctx).city == old(ctx).city
            &&& final(ctx).owner == old(ctx).owner
            &&& final(ctx).city_token == old(ctx).city_token
            &&& city.owner == old(ctx).owner
            &&& city.name == params.name
            &&& city.level == 1
            &&& city.population == STARTING_POPULATION
            &&& city.resources == starting_resources()
            &&& city.buildings@.len() == 0
            &&& city.score == STARTING_SCORE
            &&& city.created_at == now
            &&& city.last_updated == now
            &&& city.ai_level == params.ai_level
            &&& city.strategy == params.strategy
            &&& city.token_account == old(ctx).city_token
            &&& event == (CityCreated {
                city: old(ctx).city,
                owner: old(ctx).owner,
                name: params.name,
                level: 1,
            })
        },
        old(ctx).game.wf() ==> final(ctx).game.wf(),
{
    if ctx.game.current_cities >= ctx.game.max_cities {
        return Err(GameError::CityLimitReached);
    }
    let total_population = match ctx.game.total_population.checked_add(STARTING_POPULATION) {
        Some(v) => v,
        None => return Err(GameError::ArithmeticOverflow),
    };
    let city = City {
        owner: ctx.owner,
        name: params.name.clone(),
        level: 1,
        population: STARTING_POPULATION,
        resources: CityResources { gold: 1000, wood: 500, stone: 250, food: 1000, energy: 500 },
        buildings: Vec::new(),
        score: STARTING_SCORE,
        created_at: now,
        last_updated: now,
        ai_level: params.ai_level,
        strategy: params.strategy,
        token_account: ctx.city_token,
    };
    ctx.game.current_cities = ctx.game.current_cities + 1;
    ctx.game.total_population = total_population;
    let event = CityCreated { city: ctx.city, owner: ctx.owner, name: params.name, level: 1 };
    Ok((city, event))
}

/// The accounts a strategy change works on: the city, its address and its
/// owner.
#[derive(Clone, Debug)]
pub struct UpdateAIStrategy {
    pub city: City,
    pub city_key: Pubkey,
    pub owner: Pubkey,
}

/// `ctx` after its city took `ai_level` and `strategy`.
pub open spec fn strategy_updated(ctx: UpdateAIStrategy, ai_level: u8, strategy: CityStrategy) -> UpdateAIStrategy {
    UpdateAIStrategy { city: City { ai_level, strategy, ..ctx.city }, ..ctx }
}

/// The notification of a strategy change of the city at `city_key`.
pub open spec fn strategy_notice(city_key: Pubkey, ai_level: u8, strategy: CityStrategy) -> AIStrategyUpdated {
    AIStrategyUpdated { city: city_key, ai_level, strategy }
}

/// Sets the city's AI level and strategy to the given ones; nothing else
/// changes.
pub fn update_ai_strategy(ctx: &mut UpdateAIStrategy, params: AIStrategyParams) -> (r: AIStrategyUpdated)
    ensures
        *final(ctx) == strategy_updated(*old(ctx), params.ai_level, params.strategy),
        r == strategy_notice(old(ctx).city_key, params.ai_level, params.strategy),
{
    ctx.city.ai_level = params.ai_level;
    ctx.city.strategy = params.strategy;
    AIStrategyUpdated { city: ctx.city_key, ai_level: ctx.city.ai_level, strategy: ctx.city.strategy }
}

} // verus!

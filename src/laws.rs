//! Properties that span several calls of the handlers, stated over the
//! handlers' own specifications.

use vstd::prelude::*;
use crate::entities::{AIStrategyParams, Game, GameParams};
use crate::session::{
    InitializeGame, STARTING_POPULATION, UpdateAIStrategy, creation_fits, game_with_new_city,
    has_room, initial_game, strategy_notice, strategy_updated,
};

verus! {

/// `game` after `n` successful city creations, each as `create_city` leaves
/// the session.
pub open spec fn after_creations(game: Game, n: nat) -> Game
    decreases n,
{
    if n == 0 {
        game
    } else {
        game_with_new_city(after_creations(game, (n - 1) as nat))
    }
}

/// In a fresh session of capacity N, each of the first N city creations
/// succeeds, and after them the session holds exactly N cities and has no
/// room left, so the next creation fails with `CityLimitReached` and leaves
/// the count as it was.
pub proof fn lemma_creation_blocked_at_capacity(
    ctx: InitializeGame,
    params: GameParams,
    now: i64,
    n: nat,
)
    requires
        n <= params.max_cities,
    ensures
        ({
            let fresh = initial_game(ctx, params, now);
            let g = after_creations(fresh, n);
            &&& g.current_cities == n
            &&& g.max_cities == params.max_cities
            &&& g.total_population == STARTING_POPULATION * n
            &&& g.wf()
            &&& n < params.max_cities ==> has_room(g) && creation_fits(g)
            &&& n == params.max_cities ==> !has_room(g)
        }),
    decreases n,
{
    if n > 0 {
        lemma_creation_blocked_at_capacity(ctx, params, now, (n - 1) as nat);
    }
}

/// Applying the same strategy change twice leaves the city as one change
/// does, and both changes report the same notification.
pub proof fn lemma_strategy_update_idempotent(ctx: UpdateAIStrategy, params: AIStrategyParams)
    ensures
        ({
            let once = strategy_updated(ctx, params.ai_level, params.strategy);
            let twice = strategy_updated(once, params.ai_level, params.strategy);
            &&& twice == once
            &&& strategy_notice(once.city_key, params.ai_level, params.strategy)
                == strategy_notice(ctx.city_key, params.ai_level, params.strategy)
        }),
{
}

} // verus!

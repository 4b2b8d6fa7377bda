//! The records the engine works on, the commands' parameters, the
//! notifications it emits and the errors it signals.

use vstd::prelude::*;
use anchor_lang::prelude::Pubkey;
use crate::catalog::BuildingType;
use crate::resources::{CityResources, ResourceTable};

verus! {

/// The declared activity states of a session. Handlers record the state but
/// do not enforce it.
#[derive(Clone, Copy, Debug, PartialEq, Eq, Structural)]
pub enum GameState {
    Inactive,
    Active,
    Paused,
    Ended,
}

/// A city's declared focus. It is recorded but drives no formula.
#[derive(Clone, Copy, Debug, PartialEq, Eq, Structural)]
pub enum CityStrategy {
    Balanced,
    EconomyFocus,
    PopulationFocus,
    MilitaryFocus,
    ResearchFocus,
}

/// One game session and its session-wide counters.
#[derive(Clone, Debug)]
pub struct Game {
    pub admin: Pubkey,
    pub token_mint: Pubkey,
    pub treasury: Pubkey,
    pub name: String,
    pub description: String,
    pub max_cities: u32,
    pub current_cities: u32,
    pub game_state: GameState,
    pub fee_percentage: u8,
    pub reward_pool: u64,
    pub total_buildings: u64,
    pub total_population: u64,
    pub cycle: u64,
    pub last_update: i64,
}

impl Game {
    /// The session never holds more cities than its capacity.
    pub open spec fn wf(self) -> bool {
        self.current_cities <= self.max_cities
    }
}

/// A city's reference to one of its buildings: the building's address and
/// its type, which never changes after construction.
#[derive(Clone, Copy, Debug)]
pub struct BuildingRef {
    pub key: Pubkey,
    pub building_type: BuildingType,
}

/// One city of a session.
#[derive(Clone, Debug)]
pub struct City {
    pub owner: Pubkey,
    pub name: String,
    pub level: u8,
    pub population: u64,
    pub resources: CityResources,
    pub buildings: Vec<BuildingRef>,
    pub score: u64,
    pub created_at: i64,
    pub last_updated: i64,
    pub ai_level: u8,
    pub strategy: CityStrategy,
    pub token_account: Pubkey,
}

impl City {
    /// `self` and `other` agree on every field that only creation sets.
    pub open spec fn same_identity(self, other: City) -> bool {
        &&& self.owner == other.owner
        &&& self.name == other.name
        &&& self.level == other.level
        &&& self.created_at == other.created_at
        &&& self.token_account == other.token_account
    }
}

/// One building of a city.
#[derive(Clone, Copy, Debug)]
pub struct Building {
    pub city: Pubkey,
    pub building_type: BuildingType,
    pub level: u8,
    pub production_rate: ResourceTable,
    pub maintenance_cost: ResourceTable,
    pub population_bonus: u64,
    pub resource_bonus: ResourceTable,
    pub created_at: i64,
}

/// Parameters of a new session.
#[derive(Clone, Debug)]
pub struct GameParams {
    pub name: String,
    pub description: String,
    pub max_cities: u32,
    pub fee_percentage: u8,
}

/// Parameters of a new city.
#[derive(Clone, Debug)]
pub struct CreateCityParams {
    pub name: String,
    pub ai_level: u8,
    pub strategy: CityStrategy,
}

/// Parameters of a construction. The location is recorded by callers only;
/// no mechanic reads it.
#[derive(Clone, Copy, Debug)]
pub struct BuildStructureParams {
    pub building_type: BuildingType,
    pub location_x: u16,
    pub location_y: u16,
}

/// Parameters of an upgrade: the level a building may not reach past.
#[derive(Clone, Copy, Debug)]
pub struct UpgradeParams {
    pub max_level: u8,
}

/// Parameters of a strategy change.
#[derive(Clone, Copy, Debug)]
pub struct AIStrategyParams {
    pub ai_level: u8,
    pub strategy: CityStrategy,
}

/// Why a command failed. A failed command changes nothing.
#[derive(Clone, Copy, Debug, PartialEq, Eq, Structural)]
pub enum GameError {
    /// The session already holds as many cities as it may.
    CityLimitReached,
    /// A resource balance is below what the action costs.
    InsufficientResources,
    /// The building is already at the level cap given.
    MaxLevelReached,
    /// Reserved for an unrecognised building type; the catalog knows them all.
    InvalidBuildingType,
    /// The caller may not act on this record; checked by the identity layer.
    Unauthorized,
    /// Reserved for a session that is not active; not checked by any handler.
    GameNotActive,
    /// A counter would go past the largest value it can hold.
    ArithmeticOverflow,
}

impl GameError {
    /// The message that goes with the error.
    pub open spec fn spec_message(self) -> Seq<char> {
        match self {
            GameError::CityLimitReached => "City limit has been reached"@,
            GameError::InsufficientResources => "Insufficient resources to perform this action"@,
            GameError::MaxLevelReached => "Building has reached maximum level"@,
            GameError::InvalidBuildingType => "Invalid building type"@,
            GameError::Unauthorized => "Not authorized to perform this action"@,
            GameError::GameNotActive => "Game is not in active state"@,
            GameError::ArithmeticOverflow => "Arithmetic overflow"@,
        }
    }

    /// The message that goes with the error.
    pub fn message(&self) -> (r: String)
        ensures
            r@ == self.spec_message(),
    {
        match self {
            GameError::CityLimitReached => String::from_str("City limit has been reached"),
            GameError::InsufficientResources => String::from_str("Insufficient resources to perform this action"),
            GameError::MaxLevelReached => String::from_str("Building has reached maximum level"),
            GameError::InvalidBuildingType => String::from_str("Invalid building type"),
            GameError::Unauthorized => String::from_str("Not authorized to perform this action"),
            GameError::GameNotActive => String::from_str("Game is not in active state"),
            GameError::ArithmeticOverflow => String::from_str("Arithmetic overflow"),
        }
    }
}

/// Emitted when a city is created.
#[derive(Clone, Debug)]
pub struct CityCreated {
    pub city: Pubkey,
    pub owner: Pubkey,
    pub name: String,
    pub level: u8,
}

/// Emitted when a building is constructed.
#[derive(Clone, Copy, Debug)]
pub struct BuildingBuilt {
    pub city: Pubkey,
    pub building: Pubkey,
    pub building_type: BuildingType,
    pub level: u8,
}

/// Emitted when a building is upgraded.
#[derive(Clone, Copy, Debug)]
pub struct StructureUpgraded {
    pub building: Pubkey,
    pub new_level: u8,
}

/// Emitted when a cycle is processed for a city.
#[derive(Clone, Copy, Debug)]
pub struct GameTickProcessed {
    pub city: Pubkey,
    pub cycle: u64,
    pub population: u64,
    pub gold: u64,
}

/// Emitted when a city's AI configuration changes.
#[derive(Clone, Copy, Debug)]
pub struct AIStrategyUpdated {
    pub city: Pubkey,
    pub ai_level: u8,
    pub strategy: CityStrategy,
}

} // verus!

//! Battle state shared by the engine: pokemon, sides, the whole state, and the
//! small enums they are built from.
use vstd::prelude::*;

use crate::choices::Choices;
use crate::volatile::VolatileStatusBitset;

verus! {

/// Position of a pokemon on its side (six slots).
#[derive(Clone, Copy, Debug, PartialEq, Eq, Structural)]
pub enum PokemonIndex {
    P0,
    P1,
    P2,
    P3,
    P4,
    P5,
}

impl PokemonIndex {
    /// The slot number, `0..6`.
    pub open spec fn idx(self) -> int {
        match self {
            PokemonIndex::P0 => 0,
            PokemonIndex::P1 => 1,
            PokemonIndex::P2 => 2,
            PokemonIndex::P3 => 3,
            PokemonIndex::P4 => 4,
            PokemonIndex::P5 => 5,
        }
    }

    /// The index of slot `i`.
    pub open spec fn from_int(i: int) -> PokemonIndex {
        if i == 0 {
            PokemonIndex::P0
        } else if i == 1 {
            PokemonIndex::P1
        } else if i == 2 {
            PokemonIndex::P2
        } else if i == 3 {
            PokemonIndex::P3
        } else if i == 4 {
            PokemonIndex::P4
        } else {
            PokemonIndex::P5
        }
    }

    pub fn as_usize(&self) -> (r: usize)
        ensures
            r == self.idx(),
            r < 6,
    {
        match self {
            PokemonIndex::P0 => 0,
            PokemonIndex::P1 => 1,
            PokemonIndex::P2 => 2,
            PokemonIndex::P3 => 3,
            PokemonIndex::P4 => 4,
            PokemonIndex::P5 => 5,
        }
    }

    pub fn from_usize(i: usize) -> (r: PokemonIndex)
        requires
            i < 6,
        ensures
            r.idx() == i,
            r == PokemonIndex::from_int(i as int),
    {
        if i == 0 {
            PokemonIndex::P0
        } else if i == 1 {
            PokemonIndex::P1
        } else if i == 2 {
            PokemonIndex::P2
        } else if i == 3 {
            PokemonIndex::P3
        } else if i == 4 {
            PokemonIndex::P4
        } else {
            PokemonIndex::P5
        }
    }
}

/// Position of a move in a pokemon's moveset (four slots).
#[derive(Clone, Copy, Debug, PartialEq, Eq, Structural)]
pub enum PokemonMoveIndex {
    M0,
    M1,
    M2,
    M3,
}

impl PokemonMoveIndex {
    /// The slot number, `0..4`.
    pub open spec fn idx(self) -> int {
        match self {
            PokemonMoveIndex::M0 => 0,
            PokemonMoveIndex::M1 => 1,
            PokemonMoveIndex::M2 => 2,
            PokemonMoveIndex::M3 => 3,
        }
    }

    /// The index of slot `i`.
    pub open spec fn from_int(i: int) -> PokemonMoveIndex {
        if i == 0 {
            PokemonMoveIndex::M0
        } else if i == 1 {
            PokemonMoveIndex::M1
        } else if i == 2 {
            PokemonMoveIndex::M2
        } else {
            PokemonMoveIndex::M3
        }
    }

    pub fn as_usize(&self) -> (r: usize)
        ensures
            r == self.idx(),
            r < 4,
    {
        match self {
            PokemonMoveIndex::M0 => 0,
            PokemonMoveIndex::M1 => 1,
            PokemonMoveIndex::M2 => 2,
            PokemonMoveIndex::M3 => 3,
        }
    }

    pub fn from_usize(i: usize) -> (r: PokemonMoveIndex)
        requires
            i < 4,
        ensures
            r.idx() == i,
            r == PokemonMoveIndex::from_int(i as int),
    {
        if i == 0 {
            PokemonMoveIndex::M0
        } else if i == 1 {
            PokemonMoveIndex::M1
        } else if i == 2 {
            PokemonMoveIndex::M2
        } else {
            PokemonMoveIndex::M3
        }
    }
}

/// Which of the two sides an instruction or lookup refers to.
#[derive(Clone, Copy, Debug, PartialEq, Eq, Structural)]
pub enum SideReference {
    SideOne,
    SideTwo,
}

/// A choice a side can make for the turn.
#[derive(Clone, Copy, Debug, PartialEq, Eq, Structural)]
pub enum MoveChoice {
    MoveTera(PokemonMoveIndex),
    MoveMega(PokemonMoveIndex),
    Move(PokemonMoveIndex),
    Switch(PokemonIndex),
    TeamPreview(PokemonIndex),
    NoMove,
}

/// What a side did last.
#[derive(Clone, Copy, Debug, PartialEq, Eq, Structural)]
pub enum LastUsedMove {
    Move(PokemonMoveIndex),
    Switch(PokemonIndex),
    NoMove,
}

#[derive(Clone, Copy, Debug, PartialEq, Eq, Structural)]
pub enum PokemonType {
    NORMAL,
    FIRE,
    WATER,
    ELECTRIC,
    GRASS,
    ICE,
    FIGHTING,
    POISON,
    GROUND,
    FLYING,
    PSYCHIC,
    BUG,
    ROCK,
    GHOST,
    DRAGON,
    DARK,
    STEEL,
    FAIRY,
    STELLAR,
    TYPELESS,
}

/// Non-volatile status conditions.
#[derive(Clone, Copy, Debug, PartialEq, Eq, Structural)]
pub enum PokemonStatus {
    NONE,
    BURN,
    SLEEP,
    FREEZE,
    PARALYZE,
    POISON,
    TOXIC,
}

/// Stats that boosts apply to.
#[derive(Clone, Copy, Debug, PartialEq, Eq, Structural)]
pub enum PokemonBoostableStat {
    Attack,
    Defense,
    SpecialAttack,
    SpecialDefense,
    Speed,
    Evasion,
    Accuracy,
}

/// Conditions that belong to a side rather than to a pokemon.
#[derive(Clone, Copy, Debug, PartialEq, Eq, Structural)]
pub enum PokemonSideCondition {
    LightScreen,
    Reflect,
    Safeguard,
    Spikes,
    Protect,
    ToxicCount,
}

#[derive(Clone, Copy, Debug, PartialEq, Eq, Structural)]
pub enum Weather {
    NONE,
    SUN,
    RAIN,
    SAND,
    HAIL,
    SNOW,
    HARSHSUN,
    HEAVYRAIN,
}

#[derive(Clone, Copy, Debug, PartialEq, Eq, Structural)]
pub enum Terrain {
    NONE,
    ELECTRICTERRAIN,
    PSYCHICTERRAIN,
    MISTYTERRAIN,
    GRASSYTERRAIN,
}

#[derive(Clone, Copy, Debug, PartialEq, Eq, Structural)]
pub struct StateWeather {
    pub weather_type: Weather,
    pub turns_remaining: i8,
}

#[derive(Clone, Copy, Debug, PartialEq, Eq, Structural)]
pub struct StateTerrain {
    pub terrain_type: Terrain,
    pub turns_remaining: i8,
}

/// One move slot of a pokemon.
#[derive(Clone, Copy, Debug, PartialEq, Eq, Structural)]
pub struct Move {
    pub id: Choices,
    pub disabled: bool,
    pub pp: i8,
}

/// A pokemon as the engine sees it.
#[derive(Clone, Copy, Debug)]
pub struct Pokemon {
    pub types: (PokemonType, PokemonType),
    pub hp: i16,
    pub maxhp: i16,
    pub attack: i16,
    pub defense: i16,
    pub special_attack: i16,
    pub special_defense: i16,
    pub speed: i16,
    pub status: PokemonStatus,
    pub rest_turns: i8,
    pub moves: [Move; 4],
}

#[derive(Clone, Copy, Debug, PartialEq, Eq, Structural)]
pub struct SideConditions {
    pub light_screen: i8,
    pub reflect: i8,
    pub safeguard: i8,
    pub spikes: i8,
    pub protect: i8,
    pub toxic_count: i8,
}

/// One side of the battle.
#[derive(Clone, Copy, Debug)]
pub struct Side {
    pub active_index: PokemonIndex,
    pub pokemon: [Pokemon; 6],
    pub side_conditions: SideConditions,
    pub volatile_statuses: VolatileStatusBitset,
    pub attack_boost: i8,
    pub defense_boost: i8,
    pub special_attack_boost: i8,
    pub special_defense_boost: i8,
    pub speed_boost: i8,
    pub accuracy_boost: i8,
    pub evasion_boost: i8,
    pub force_switch: bool,
    pub force_trapped: bool,
    pub slow_uturn_move: bool,
    pub switch_out_move_second_saved_move: Choices,
    pub last_used_move: LastUsedMove,
}

/// The whole battle.
#[derive(Clone, Copy, Debug)]
pub struct State {
    pub side_one: Side,
    pub side_two: Side,
    pub weather: StateWeather,
    pub terrain: StateTerrain,
    pub team_preview: bool,
    pub use_damage_dealt: bool,
    pub use_last_used_move: bool,
}

impl Side {
    /// The pokemon currently on the field.
    pub open spec fn active(self) -> Pokemon {
        self.pokemon[self.active_index.idx()]
    }

    pub fn get_active_immutable(&self) -> (r: &Pokemon)
        ensures
            *r == self.active(),
    {
        let i = self.active_index.as_usize();
        &self.pokemon[i]
    }
}

impl State {
    /// The side that `side_ref` names.
    pub open spec fn side(self, side_ref: SideReference) -> Side {
        match side_ref {
            SideReference::SideOne => self.side_one,
            SideReference::SideTwo => self.side_two,
        }
    }
}

} // verus!

//! Instructions: the recorded changes that the engine applies to a state and
//! can later reverse.
use vstd::prelude::*;

use crate::state::{
    Pokemon, PokemonIndex, PokemonSideCondition, PokemonStatus, Side, SideConditions, SideReference,
    State,
};
use crate::volatile::PokemonVolatileStatus;

verus! {

/// Adds `amount` to a side condition counter.
#[derive(Clone, Copy, Debug, PartialEq, Eq, Structural)]
pub struct ChangeSideConditionInstruction {
    pub side_ref: SideReference,
    pub side_condition: PokemonSideCondition,
    pub amount: i8,
}

/// Changes the status of one pokemon from `old_status` to `new_status`.
#[derive(Clone, Copy, Debug, PartialEq, Eq, Structural)]
pub struct ChangeStatusInstruction {
    pub side_ref: SideReference,
    pub pokemon_index: PokemonIndex,
    pub old_status: PokemonStatus,
    pub new_status: PokemonStatus,
}

/// Removes one volatile status from a side.
#[derive(Clone, Copy, Debug, PartialEq, Eq, Structural)]
pub struct RemoveVolatileStatusInstruction {
    pub side_ref: SideReference,
    pub volatile_status: PokemonVolatileStatus,
}

#[derive(Clone, Copy, Debug, PartialEq, Eq, Structural)]
pub enum Instruction {
    ChangeSideCondition(ChangeSideConditionInstruction),
    ChangeStatus(ChangeStatusInstruction),
    RemoveVolatileStatus(RemoveVolatileStatusInstruction),
}

/// The value of counter `condition` among `conditions`.
pub open spec fn side_condition(conditions: SideConditions, condition: PokemonSideCondition) -> i8 {
    match condition {
        PokemonSideCondition::LightScreen => conditions.light_screen,
        PokemonSideCondition::Reflect => conditions.reflect,
        PokemonSideCondition::Safeguard => conditions.safeguard,
        PokemonSideCondition::Spikes => conditions.spikes,
        PokemonSideCondition::Protect => conditions.protect,
        PokemonSideCondition::ToxicCount => conditions.toxic_count,
    }
}

/// `conditions` with counter `condition` set to `value`.
pub open spec fn with_side_condition(
    conditions: SideConditions,
    condition: PokemonSideCondition,
    value: i8,
) -> SideConditions {
    match condition {
        PokemonSideCondition::LightScreen => SideConditions { light_screen: value, ..conditions },
        PokemonSideCondition::Reflect => SideConditions { reflect: value, ..conditions },
        PokemonSideCondition::Safeguard => SideConditions { safeguard: value, ..conditions },
        PokemonSideCondition::Spikes => SideConditions { spikes: value, ..conditions },
        PokemonSideCondition::Protect => SideConditions { protect: value, ..conditions },
        PokemonSideCondition::ToxicCount => SideConditions { toxic_count: value, ..conditions },
    }
}

/// `side` with counter `condition` moved by `amount`.
pub open spec fn side_with_condition_changed(
    side: Side,
    condition: PokemonSideCondition,
    amount: int,
) -> Side {
    Side {
        side_conditions: with_side_condition(
            side.side_conditions,
            condition,
            (side_condition(side.side_conditions, condition) + amount) as i8,
        ),
        ..side
    }
}

/// `side` with the pokemon in slot `index` given `status`.
pub open spec fn side_with_status(side: Side, index: PokemonIndex, status: PokemonStatus) -> Side {
    Side {
        pokemon: vstd::array::spec_array_update(
            side.pokemon,
            index.idx(),
            Pokemon { status: status, ..side.pokemon[index.idx()] },
        ),
        ..side
    }
}

/// The side an instruction changes.
pub open spec fn instruction_side(instruction: Instruction) -> SideReference {
    match instruction {
        Instruction::ChangeSideCondition(i) => i.side_ref,
        Instruction::ChangeStatus(i) => i.side_ref,
        Instruction::RemoveVolatileStatus(i) => i.side_ref,
    }
}

/// `side` after `instruction`.
pub open spec fn apply_to_side(side: Side, instruction: Instruction) -> Side {
    match instruction {
        Instruction::ChangeSideCondition(i) => side_with_condition_changed(side, i.side_condition, i.amount as int),
        Instruction::ChangeStatus(i) => side_with_status(side, i.pokemon_index, i.new_status),
        Instruction::RemoveVolatileStatus(i) => Side {
            volatile_statuses: side.volatile_statuses.with_removed(i.volatile_status),
            ..side
        },
    }
}

/// `side` with `instruction` undone.
pub open spec fn reverse_on_side(side: Side, instruction: Instruction) -> Side {
    match instruction {
        Instruction::ChangeSideCondition(i) => side_with_condition_changed(side, i.side_condition, -(i.amount as int)),
        Instruction::ChangeStatus(i) => side_with_status(side, i.pokemon_index, i.old_status),
        Instruction::RemoveVolatileStatus(i) => Side {
            volatile_statuses: side.volatile_statuses.with_inserted(i.volatile_status),
            ..side
        },
    }
}

/// `state` with the side that `side_ref` names replaced by `side`.
pub open spec fn with_side(state: State, side_ref: SideReference, side: Side) -> State {
    match side_ref {
        SideReference::SideOne => State { side_one: side, ..state },
        SideReference::SideTwo => State { side_two: side, ..state },
    }
}

/// `state` after `instruction`.
pub open spec fn apply_instruction(state: State, instruction: Instruction) -> State {
    let r = instruction_side(instruction);
    with_side(state, r, apply_to_side(state.side(r), instruction))
}

/// `state` with `instruction` undone.
pub open spec fn reverse_instruction(state: State, instruction: Instruction) -> State {
    let r = instruction_side(instruction);
    with_side(state, r, reverse_on_side(state.side(r), instruction))
}

/// `state` after `instructions`, applied first to last.
pub open spec fn apply_instructions(state: State, instructions: Seq<Instruction>) -> State
    decreases instructions.len(),
{
    if instructions.len() == 0 {
        state
    } else {
        apply_instruction(apply_instructions(state, instructions.drop_last()), instructions.last())
    }
}

/// `state` with `instructions` undone, last to first.
pub open spec fn reverse_instructions(state: State, instructions: Seq<Instruction>) -> State
    decreases instructions.len(),
{
    if instructions.len() == 0 {
        state
    } else {
        reverse_instructions(reverse_instruction(state, instructions.last()), instructions.drop_last())
    }
}

} // verus!

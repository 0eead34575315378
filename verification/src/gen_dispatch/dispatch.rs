//! Wrappers generic over the generation. This engine serves generation 2,
//! fixed when it is built, so the const parameter does not change the result.
//!
//! Only the choice lists are offered here. Parsing a state from its string
//! form, generating the instructions of a turn and rolling damage belong to
//! the battle engine proper, which this crate does not hold, so their
//! dispatch wrappers (`deserialize`, `generate_instructions_from_move_pair`,
//! `calculate_both_damage_rolls`) and the runtime-generation facade that
//! picks among generations 4 to 9 are not part of it.
use vstd::prelude::*;

use crate::gen2::state::{all_options, root_options};
use crate::state::{MoveChoice, State};

verus! {

/// The choices of both sides for the next decision.
pub fn get_all_options<const GEN: u8>(state: &State) -> (r: (Vec<MoveChoice>, Vec<MoveChoice>))
    ensures
        r.0@ == all_options(*state).0,
        r.1@ == all_options(*state).1,
{
    state.gen2_get_all_options()
}

/// The choices of both sides at the root of a search.
pub fn root_get_all_options<const GEN: u8>(state: &State) -> (r: (Vec<MoveChoice>, Vec<MoveChoice>))
    ensures
        r.0@ == root_options(*state).0,
        r.1@ == root_options(*state).1,
{
    state.gen2_root_get_all_options()
}

} // verus!

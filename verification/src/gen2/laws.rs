//! Properties that hold of the generation 2 rules for every state.
use vstd::prelude::*;

use crate::gen2::state::{
    all_options, available_moves, or_no_move, saved_move_options, side_trapped, kept_on_switch, kept_statuses, moves_matching, open_when_trapped,
    regular_options, removed_on_switch, root_options, root_side_options, side_available_moves,
    side_encored, switch_options, team_preview_options, toxic_reset, toxic_reset_instructions,
    with_damage_dealt_flag, with_last_used_move_flag, with_switches, without_switches,
    only_side_changed, only_volatile_statuses_changed, removal_instructions, switch_out_instructions,
};
use crate::instruction::{
    ChangeSideConditionInstruction, ChangeStatusInstruction, apply_instruction, apply_instructions, reverse_instruction, reverse_instructions, with_side,
    Instruction,
};
use crate::state::{Pokemon, PokemonSideCondition, PokemonStatus, SideConditions, SideReference};
use crate::volatile::{lemma_without_statuses, without_statuses, VolatileStatusBitset};
use crate::state::{LastUsedMove, MoveChoice, PokemonIndex, PokemonMoveIndex, Side, State};
use crate::volatile::{
    lemma_bit_round_trip, lemma_from_bit, PokemonVolatileStatus, VOLATILE_STATUS_COUNT,
};


verus! {

/// A switch choice that names a pokemon able to come in: alive and not
/// already on the field.
pub open spec fn valid_switch(side: Side, choice: MoveChoice) -> bool {
    choice matches MoveChoice::Switch(p) ==> side.pokemon[p.idx()].hp > 0 && p != side.active_index
}

/// Every choice of `options` is a move or doing nothing.
pub open spec fn only_moves(options: Seq<MoveChoice>) -> bool {
    forall|k: int| 0 <= k < options.len() ==> open_when_trapped(#[trigger] options[k])
}

proof fn lemma_index_round_trip(i: int)
    requires
        0 <= i < 6,
    ensures
        PokemonIndex::from_int(i).idx() == i,
{
}

pub proof fn lemma_switch_options_valid(side: Side, n: nat)
    requires
        n <= 6,
    ensures
        forall|k: int|
            0 <= k < switch_options(side, n).len() ==> (#[trigger] switch_options(side, n)[k]) is Switch
                && valid_switch(side, switch_options(side, n)[k]),
    decreases n,
{
    if n > 0 {
        lemma_switch_options_valid(side, (n - 1) as nat);
        lemma_index_round_trip(n - 1);
    }
}

pub proof fn lemma_available_moves_are_moves(p: Pokemon, last: LastUsedMove, encored: bool, n: nat)
    ensures
        only_moves(available_moves(p, last, encored, n)),
        forall|k: int|
            0 <= k < available_moves(p, last, encored, n).len() ==> (#[trigger] available_moves(
                p,
                last,
                encored,
                n,
            )[k]) is Move,
    decreases n,
{
    if n > 0 {
        lemma_available_moves_are_moves(p, last, encored, (n - 1) as nat);
    }
}

proof fn lemma_moves_matching_are_moves(p: Pokemon, choice: crate::choices::Choices, n: nat)
    ensures
        only_moves(moves_matching(p, choice, n)),
    decreases n,
{
    if n > 0 {
        lemma_moves_matching_are_moves(p, choice, (n - 1) as nat);
    }
}

proof fn lemma_with_switches_valid(side: Side, options: Seq<MoveChoice>)
    requires
        only_moves(options),
    ensures
        forall|k: int|
            0 <= k < with_switches(side, options).len() ==> valid_switch(
                side,
                #[trigger] with_switches(side, options)[k],
            ),
{
    lemma_switch_options_valid(side, 6);
    let all = options + switch_options(side, 6);
    assert forall|k: int| 0 <= k < with_switches(side, options).len() implies valid_switch(
        side,
        #[trigger] with_switches(side, options)[k],
    ) by {
        if all.len() > 0 {
            if k < options.len() {
                assert(open_when_trapped(options[k]));
            } else {
                assert(all[k] == switch_options(side, 6)[k - options.len()]);
            }
        }
    }
}

proof fn lemma_regular_options_valid(side: Side)
    ensures
        forall|k: int|
            0 <= k < regular_options(side).len() ==> valid_switch(side, #[trigger] regular_options(side)[k]),
{
    lemma_available_moves_are_moves(side.active(), side.last_used_move, side_encored(side), 4);
    lemma_with_switches_valid(side, side_available_moves(side));
}

/// Every switch that a side is offered for its next decision names one of
/// its pokemon that is alive and not on the field.
pub proof fn lemma_offered_switches_valid(state: State)
    ensures
        forall|k: int|
            0 <= k < all_options(state).0.len() ==> valid_switch(
                state.side_one,
                #[trigger] all_options(state).0[k],
            ),
        forall|k: int|
            0 <= k < all_options(state).1.len() ==> valid_switch(
                state.side_two,
                #[trigger] all_options(state).1[k],
            ),
{
    let s1 = state.side_one;
    let s2 = state.side_two;
    lemma_with_switches_valid(s1, Seq::empty());
    lemma_with_switches_valid(s2, Seq::empty());
    lemma_regular_options_valid(s1);
    lemma_regular_options_valid(s2);
    lemma_moves_matching_are_moves(s1.active(), s1.switch_out_move_second_saved_move, 4);
    lemma_moves_matching_are_moves(s2.active(), s2.switch_out_move_second_saved_move, 4);
}

pub proof fn lemma_without_switches_only_moves(options: Seq<MoveChoice>)
    ensures
        only_moves(without_switches(options)),
        forall|k: int|
            0 <= k < without_switches(options).len() ==> options.contains(
                #[trigger] without_switches(options)[k],
            ),
    decreases options.len(),
{
    if options.len() > 0 {
        lemma_without_switches_only_moves(options.drop_last());
        let prev = without_switches(options.drop_last());
        assert forall|k: int| 0 <= k < without_switches(options).len() implies options.contains(
            #[trigger] without_switches(options)[k],
        ) by {
            if k < prev.len() {
                let j = choose|j: int| 0 <= j < options.drop_last().len() && options.drop_last()[j] == prev[k];
                assert(options[j] == prev[k]);
            } else {
                assert(options[options.len() - 1] == options.last());
            }
        }
    }
}

proof fn lemma_root_side_options_valid(side: Side, options: Seq<MoveChoice>)
    requires
        forall|k: int| 0 <= k < options.len() ==> valid_switch(side, #[trigger] options[k]),
    ensures
        forall|k: int|
            0 <= k < root_side_options(side, options).len() ==> valid_switch(
                side,
                #[trigger] root_side_options(side, options)[k],
            ),
        side.force_trapped || side.slow_uturn_move ==> only_moves(root_side_options(side, options)),
{
    lemma_without_switches_only_moves(options);
    lemma_available_moves_are_moves(side.active(), side.last_used_move, side_encored(side), 4);
    let kept = if side.force_trapped {
        without_switches(options)
    } else {
        options
    };
    assert forall|k: int| 0 <= k < kept.len() implies valid_switch(side, #[trigger] kept[k]) by {
        if side.force_trapped {
            assert(open_when_trapped(kept[k]));
        }
    }
}

/// Outside team preview, every switch offered at the root names a pokemon
/// that is alive and not on the field, and a side that is forced to stay in
/// (or must pick the move that finishes a slow u-turn) is offered no switch.
pub proof fn lemma_root_switches_valid(state: State)
    requires
        !state.team_preview,
    ensures
        forall|k: int|
            0 <= k < root_options(state).0.len() ==> valid_switch(
                state.side_one,
                #[trigger] root_options(state).0[k],
            ),
        forall|k: int|
            0 <= k < root_options(state).1.len() ==> valid_switch(
                state.side_two,
                #[trigger] root_options(state).1[k],
            ),
        state.side_one.force_trapped ==> only_moves(root_options(state).0),
        state.side_two.force_trapped ==> only_moves(root_options(state).1),
{
    lemma_offered_switches_valid(state);
    lemma_root_side_options_valid(state.side_one, all_options(state).0);
    lemma_root_side_options_valid(state.side_two, all_options(state).1);
}

proof fn lemma_team_preview_nonempty(side: Side, n: nat, i: int)
    requires
        0 <= i < n <= 6,
        side.pokemon[i].hp > 0,
    ensures
        team_preview_options(side, n).len() > 0,
    decreases n,
{
    if i < n - 1 {
        lemma_team_preview_nonempty(side, (n - 1) as nat, i);
    }
}

/// Both sides always have a choice at the root, except in team preview for a
/// side that has no living pokemon.
pub proof fn lemma_root_options_nonempty(state: State)
    requires
        state.team_preview ==> exists|i: int| 0 <= i < 6 && #[trigger] state.side_one.pokemon[i].hp > 0,
        state.team_preview ==> exists|i: int| 0 <= i < 6 && #[trigger] state.side_two.pokemon[i].hp > 0,
    ensures
        root_options(state).0.len() > 0,
        root_options(state).1.len() > 0,
{
    if state.team_preview {
        let i = choose|i: int| 0 <= i < 6 && #[trigger] state.side_one.pokemon[i].hp > 0;
        let j = choose|j: int| 0 <= j < 6 && #[trigger] state.side_two.pokemon[j].hp > 0;
        lemma_team_preview_nonempty(state.side_one, 6, i);
        lemma_team_preview_nonempty(state.side_two, 6, j);
    }
}

/// Every move offered is usable (not disabled, with pp left), and a side that
/// is encored after using a move is offered that move alone.
pub proof fn lemma_available_moves_respect_encore(
    p: Pokemon,
    last_used_move: LastUsedMove,
    encored: bool,
    n: nat,
)
    requires
        n <= 4,
    ensures
        forall|k: int|
            #![trigger available_moves(p, last_used_move, encored, n)[k]]
            0 <= k < available_moves(p, last_used_move, encored, n).len() ==> {
                &&& available_moves(p, last_used_move, encored, n)[k] matches MoveChoice::Move(m)
                &&& !p.moves[m.idx()].disabled
                &&& p.moves[m.idx()].pp > 0
                &&& encored ==> (last_used_move matches LastUsedMove::Move(l) ==> m == l)
            },
    decreases n,
{
    if n > 0 {
        lemma_available_moves_respect_encore(p, last_used_move, encored, (n - 1) as nat);
        let m = PokemonMoveIndex::from_int(n - 1);
        assert(m.idx() == n - 1);
        if let LastUsedMove::Move(l) = last_used_move {
            assert(l.idx() == m.idx() ==> l == m);
        }
    }
}

proof fn lemma_removed_on_switch_members(
    statuses: Set<PokemonVolatileStatus>,
    baton_passing: bool,
    n: nat,
)
    requires
        n <= VOLATILE_STATUS_COUNT,
    ensures
        forall|v: PokemonVolatileStatus|
            #[trigger] removed_on_switch(statuses, baton_passing, n).contains(v) <==> (statuses.contains(v)
                && !kept_on_switch(v, baton_passing) && v.bit() < n),
        removed_on_switch(statuses, baton_passing, n).no_duplicates(),
    decreases n,
{
    if n > 0 {
        lemma_removed_on_switch_members(statuses, baton_passing, (n - 1) as nat);
        lemma_from_bit(n - 1);
        let prev = removed_on_switch(statuses, baton_passing, (n - 1) as nat);
        let cur = removed_on_switch(statuses, baton_passing, n);
        assert forall|v: PokemonVolatileStatus| #[trigger] cur.contains(v) <==> (statuses.contains(v)
            && !kept_on_switch(v, baton_passing) && v.bit() < n) by {
            lemma_bit_round_trip(v);
            if cur.contains(v) && !prev.contains(v) {
                let k = choose|k: int| 0 <= k < cur.len() && cur[k] == v;
                assert(k == prev.len());
            }
            if v.bit() == n - 1 && statuses.contains(v) && !kept_on_switch(v, baton_passing) {
                assert(cur[cur.len() - 1] == v);
            }
            if prev.contains(v) {
                let k = choose|k: int| 0 <= k < prev.len() && prev[k] == v;
                assert(cur[k] == v);
            }
        }
        match PokemonVolatileStatus::from_bit(n - 1) {
            Some(w) => {
                if statuses.contains(w) && !kept_on_switch(w, baton_passing) {
                    assert(!prev.contains(w));
                    assert forall|a: int, b: int| 0 <= a < cur.len() && 0 <= b < cur.len() && a != b implies cur[a]
                        != cur[b] by {
                        if a < prev.len() && b == prev.len() {
                            assert(prev.contains(prev[a]));
                        }
                        if b < prev.len() && a == prev.len() {
                            assert(prev.contains(prev[b]));
                        }
                    }
                }
            },
            None => {},
        }
    }
}

/// A switch records the removal of exactly the statuses that do not stay,
/// each once.
pub proof fn lemma_switch_out_removes_exactly(statuses: Set<PokemonVolatileStatus>, baton_passing: bool)
    ensures
        forall|v: PokemonVolatileStatus|
            #[trigger] removed_on_switch(statuses, baton_passing, VOLATILE_STATUS_COUNT as nat).contains(v)
                <==> (statuses.contains(v) && !kept_on_switch(v, baton_passing)),
        removed_on_switch(statuses, baton_passing, VOLATILE_STATUS_COUNT as nat).no_duplicates(),
        forall|v: PokemonVolatileStatus|
            #[trigger] kept_statuses(statuses, baton_passing).contains(v) <==> (statuses.contains(v)
                && kept_on_switch(v, baton_passing)),
{
    lemma_removed_on_switch_members(statuses, baton_passing, VOLATILE_STATUS_COUNT as nat);
    assert forall|v: PokemonVolatileStatus|
        #[trigger] removed_on_switch(statuses, baton_passing, VOLATILE_STATUS_COUNT as nat).contains(v)
            <==> (statuses.contains(v) && !kept_on_switch(v, baton_passing)) by {
        lemma_bit_round_trip(v);
    }
}

/// Switching out twice in a row changes nothing the second time: no status
/// is left to remove and the kept statuses stay.
pub proof fn lemma_switch_out_idempotent(statuses: Set<PokemonVolatileStatus>, baton_passing: bool)
    ensures
        removed_on_switch(kept_statuses(statuses, baton_passing), baton_passing, VOLATILE_STATUS_COUNT as nat).len()
            == 0,
        kept_statuses(kept_statuses(statuses, baton_passing), baton_passing) == kept_statuses(
            statuses,
            baton_passing,
        ),
{
    let kept = kept_statuses(statuses, baton_passing);
    let removed = removed_on_switch(kept, baton_passing, VOLATILE_STATUS_COUNT as nat);
    lemma_switch_out_removes_exactly(kept, baton_passing);
    if removed.len() > 0 {
        assert(removed.contains(removed[0]));
    }
    assert(kept_statuses(kept, baton_passing) =~= kept);
}

/// Without baton pass a switching side keeps no volatile status.
pub proof fn lemma_switch_out_clears_all(statuses: Set<PokemonVolatileStatus>)
    ensures
        kept_statuses(statuses, false) == Set::<PokemonVolatileStatus>::empty(),
{
    assert(kept_statuses(statuses, false) =~= Set::<PokemonVolatileStatus>::empty());
}

/// Resetting toxic twice in a row changes nothing the second time and records
/// nothing.
pub proof fn lemma_toxic_reset_idempotent(s0: Side, s1: Side, side_ref: crate::state::SideReference)
    requires
        toxic_reset(s0, s1),
    ensures
        toxic_reset(s1, s1),
        toxic_reset_instructions(s1, side_ref).len() == 0,
        s1.side_conditions.toxic_count <= 0,
        s1.active().status != crate::state::PokemonStatus::TOXIC,
{
    assert(s1.active_index == s0.active_index);
    assert(s1.pokemon@[s1.active_index.idx()] == s1.pokemon[s1.active_index.idx()]);
    assert(toxic_reset_instructions(s1, side_ref) =~= Seq::<crate::instruction::Instruction>::empty());
}

/// Turning on the optional mechanics a second time changes nothing.
pub proof fn lemma_conditional_mechanics_idempotent(state: State)
    ensures
        with_last_used_move_flag(with_damage_dealt_flag(with_last_used_move_flag(with_damage_dealt_flag(state))))
            == with_last_used_move_flag(with_damage_dealt_flag(state)),
{
}

/// `side` holding the volatile statuses `statuses`.
pub open spec fn side_with_statuses(side: Side, statuses: VolatileStatusBitset) -> Side {
    Side { volatile_statuses: statuses, ..side }
}

proof fn lemma_with_own_side(state: State, side_ref: SideReference)
    ensures
        with_side(state, side_ref, state.side(side_ref)) == state,
        forall|side: Side| #[trigger] with_side(state, side_ref, side).side(side_ref) == side,
{
}

proof fn lemma_apply_one(state: State, x: Instruction)
    ensures
        apply_instructions(state, seq![x]) == apply_instruction(state, x),
        reverse_instructions(state, seq![x]) == reverse_instruction(state, x),
{
    assert(seq![x].drop_last() =~= Seq::<Instruction>::empty());
    assert(seq![x].last() == x);
    assert(apply_instructions(state, Seq::<Instruction>::empty()) == state);
    assert(reverse_instructions(reverse_instruction(state, x), Seq::<Instruction>::empty()) == reverse_instruction(state, x));
}

proof fn lemma_apply_two(state: State, x: Instruction, y: Instruction)
    ensures
        apply_instructions(state, seq![x, y]) == apply_instruction(apply_instruction(state, x), y),
        reverse_instructions(state, seq![x, y]) == reverse_instruction(reverse_instruction(state, y), x),
{
    assert(seq![x, y].drop_last() =~= seq![x]);
    lemma_apply_one(state, x);
    lemma_apply_one(reverse_instruction(state, y), x);
}

proof fn lemma_removals_apply(state: State, side_ref: SideReference, statuses: Seq<PokemonVolatileStatus>)
    ensures
        apply_instructions(state, removal_instructions(statuses, side_ref)) == with_side(
            state,
            side_ref,
            side_with_statuses(
                state.side(side_ref),
                without_statuses(state.side(side_ref).volatile_statuses, statuses),
            ),
        ),
    decreases statuses.len(),
{
    lemma_with_own_side(state, side_ref);
    if statuses.len() == 0 {
        assert(removal_instructions(statuses, side_ref) =~= Seq::<Instruction>::empty());
    } else {
        let prev = statuses.drop_last();
        lemma_removals_apply(state, side_ref, prev);
        assert(removal_instructions(statuses, side_ref).drop_last() =~= removal_instructions(prev, side_ref));
    }
}

proof fn lemma_removals_reverse(state: State, side_ref: SideReference, statuses: Seq<PokemonVolatileStatus>)
    requires
        statuses.no_duplicates(),
        forall|k: int| 0 <= k < statuses.len() ==> state.side(side_ref).volatile_statuses@.contains(#[trigger] statuses[k]),
    ensures
        reverse_instructions(
            with_side(
                state,
                side_ref,
                side_with_statuses(
                    state.side(side_ref),
                    without_statuses(state.side(side_ref).volatile_statuses, statuses),
                ),
            ),
            removal_instructions(statuses, side_ref),
        ) == state,
    decreases statuses.len(),
{
    let b = state.side(side_ref).volatile_statuses;
    lemma_with_own_side(state, side_ref);
    if statuses.len() == 0 {
        assert(removal_instructions(statuses, side_ref) =~= Seq::<Instruction>::empty());
    } else {
        let prev = statuses.drop_last();
        let v = statuses.last();
        assert(removal_instructions(statuses, side_ref).drop_last() =~= removal_instructions(prev, side_ref));
        lemma_without_statuses(b, prev);
        assert(!prev.contains(v)) by {
            if prev.contains(v) {
                let k = choose|k: int| 0 <= k < prev.len() && prev[k] == v;
                assert(statuses[k] == statuses[statuses.len() - 1]);
            }
        }
        assert(b@.contains(statuses[statuses.len() - 1]));
        without_statuses(b, prev).lemma_insert_undoes_remove(v);
        assert forall|k: int| 0 <= k < prev.len() implies state.side(side_ref).volatile_statuses@.contains(
            #[trigger] prev[k],
        ) by {
            assert(prev[k] == statuses[k]);
        }
        lemma_removals_reverse(state, side_ref, prev);
    }
}

/// The instructions that a switch out appends record exactly the change it
/// makes: applied to the state before, they give the state after, and undone
/// on the state after, they give the state before.
pub proof fn lemma_switch_out_recorded(
    old: State,
    new: State,
    side_ref: SideReference,
    baton_passing: bool,
)
    requires
        only_side_changed(old, new, side_ref),
        only_volatile_statuses_changed(old.side(side_ref), new.side(side_ref)),
        new.side(side_ref).volatile_statuses == without_statuses(
            old.side(side_ref).volatile_statuses,
            removed_on_switch(
                old.side(side_ref).volatile_statuses@,
                baton_passing,
                VOLATILE_STATUS_COUNT as nat,
            ),
        ),
    ensures
        apply_instructions(old, switch_out_instructions(old.side(side_ref), side_ref, baton_passing))
            == new,
        reverse_instructions(new, switch_out_instructions(old.side(side_ref), side_ref, baton_passing))
            == old,
{
    let statuses = old.side(side_ref).volatile_statuses;
    let removed = removed_on_switch(statuses@, baton_passing, VOLATILE_STATUS_COUNT as nat);
    lemma_removed_on_switch_members(statuses@, baton_passing, VOLATILE_STATUS_COUNT as nat);
    assert forall|k: int| 0 <= k < removed.len() implies statuses@.contains(#[trigger] removed[k]) by {
        assert(removed.contains(removed[k]));
    }
    lemma_removals_apply(old, side_ref, removed);
    lemma_removals_reverse(old, side_ref, removed);
    assert(with_side(
        old,
        side_ref,
        side_with_statuses(old.side(side_ref), without_statuses(statuses, removed)),
    ) == new);
}

spec fn toxic_count_cleared(side: Side) -> Side {
    Side { side_conditions: SideConditions { toxic_count: 0, ..side.side_conditions }, ..side }
}

spec fn active_poisoned(side: Side) -> Side {
    Side {
        pokemon: vstd::array::spec_array_update(
            side.pokemon,
            side.active_index.idx(),
            Pokemon { status: PokemonStatus::POISON, ..side.active() },
        ),
        ..side
    }
}

spec fn toxic_count_instruction(side: Side, side_ref: SideReference) -> Instruction {
    Instruction::ChangeSideCondition(
        ChangeSideConditionInstruction {
            side_ref: side_ref,
            side_condition: PokemonSideCondition::ToxicCount,
            amount: (-side.side_conditions.toxic_count) as i8,
        },
    )
}

spec fn toxic_status_instruction(side: Side, side_ref: SideReference) -> Instruction {
    Instruction::ChangeStatus(
        ChangeStatusInstruction {
            side_ref: side_ref,
            pokemon_index: side.active_index,
            old_status: PokemonStatus::TOXIC,
            new_status: PokemonStatus::POISON,
        },
    )
}

proof fn lemma_toxic_count_step(state: State, side_ref: SideReference)
    requires
        state.side(side_ref).side_conditions.toxic_count > 0,
    ensures
        apply_instruction(state, toxic_count_instruction(state.side(side_ref), side_ref)) == with_side(
            state,
            side_ref,
            toxic_count_cleared(state.side(side_ref)),
        ),
        reverse_instruction(
            with_side(state, side_ref, toxic_count_cleared(state.side(side_ref))),
            toxic_count_instruction(state.side(side_ref), side_ref),
        ) == state,
{
    lemma_with_own_side(state, side_ref);
}

proof fn lemma_toxic_status_step(state: State, side_ref: SideReference)
    requires
        state.side(side_ref).active().status == PokemonStatus::TOXIC,
    ensures
        apply_instruction(state, toxic_status_instruction(state.side(side_ref), side_ref)) == with_side(
            state,
            side_ref,
            active_poisoned(state.side(side_ref)),
        ),
        reverse_instruction(
            with_side(state, side_ref, active_poisoned(state.side(side_ref))),
            toxic_status_instruction(state.side(side_ref), side_ref),
        ) == state,
{
    let side = state.side(side_ref);
    let a = side.active_index.idx();
    lemma_with_own_side(state, side_ref);
    let poisoned = active_poisoned(side);
    assert(poisoned.pokemon[a] == Pokemon { status: PokemonStatus::POISON, ..side.active() });
    assert(side.pokemon =~= vstd::array::spec_array_update(
        poisoned.pokemon,
        a,
        Pokemon { status: PokemonStatus::TOXIC, ..poisoned.pokemon[a] },
    ));
}

spec fn toxic_expected(side: Side) -> Side {
    let cleared = if side.side_conditions.toxic_count > 0 {
        toxic_count_cleared(side)
    } else {
        side
    };
    if side.active().status == PokemonStatus::TOXIC {
        active_poisoned(cleared)
    } else {
        cleared
    }
}

proof fn lemma_toxic_expected(old: State, new: State, side_ref: SideReference)
    requires
        only_side_changed(old, new, side_ref),
        toxic_reset(old.side(side_ref), new.side(side_ref)),
    ensures
        new == with_side(old, side_ref, toxic_expected(old.side(side_ref))),
{
    let side = old.side(side_ref);
    let after = new.side(side_ref);
    let expected = toxic_expected(side);
    assert(after.pokemon =~= expected.pokemon);
    assert(after == expected);
}

proof fn lemma_toxic_both_steps(old: State, side_ref: SideReference)
    requires
        old.side(side_ref).side_conditions.toxic_count > 0,
        old.side(side_ref).active().status == PokemonStatus::TOXIC,
    ensures
        apply_instructions(old, toxic_reset_instructions(old.side(side_ref), side_ref)) == with_side(
            old,
            side_ref,
            toxic_expected(old.side(side_ref)),
        ),
        reverse_instructions(
            with_side(old, side_ref, toxic_expected(old.side(side_ref))),
            toxic_reset_instructions(old.side(side_ref), side_ref),
        ) == old,
{
    let side = old.side(side_ref);
    let cleared = toxic_count_cleared(side);
    let mid = with_side(old, side_ref, cleared);
    let instructions = toxic_reset_instructions(side, side_ref);
    lemma_with_own_side(old, side_ref);
    lemma_toxic_count_step(old, side_ref);
    assert(mid.side(side_ref) == cleared);
    lemma_toxic_status_step(mid, side_ref);
    assert(with_side(mid, side_ref, active_poisoned(cleared)) == with_side(old, side_ref, toxic_expected(side)));
    assert(instructions =~= seq![
        toxic_count_instruction(side, side_ref),
        toxic_status_instruction(cleared, side_ref),
    ]);
    lemma_apply_two(old, instructions[0], instructions[1]);
    lemma_apply_two(with_side(old, side_ref, toxic_expected(side)), instructions[0], instructions[1]);
}

proof fn lemma_toxic_one_step(old: State, side_ref: SideReference)
    requires
        old.side(side_ref).side_conditions.toxic_count > 0 || old.side(side_ref).active().status
            == PokemonStatus::TOXIC,
        !(old.side(side_ref).side_conditions.toxic_count > 0 && old.side(side_ref).active().status
            == PokemonStatus::TOXIC),
    ensures
        apply_instructions(old, toxic_reset_instructions(old.side(side_ref), side_ref)) == with_side(
            old,
            side_ref,
            toxic_expected(old.side(side_ref)),
        ),
        reverse_instructions(
            with_side(old, side_ref, toxic_expected(old.side(side_ref))),
            toxic_reset_instructions(old.side(side_ref), side_ref),
        ) == old,
{
    let side = old.side(side_ref);
    let instructions = toxic_reset_instructions(side, side_ref);
    lemma_with_own_side(old, side_ref);
    if side.side_conditions.toxic_count > 0 {
        lemma_toxic_count_step(old, side_ref);
        assert(instructions =~= seq![toxic_count_instruction(side, side_ref)]);
    } else {
        lemma_toxic_status_step(old, side_ref);
        assert(instructions =~= seq![toxic_status_instruction(side, side_ref)]);
    }
    lemma_apply_one(old, instructions[0]);
    lemma_apply_one(with_side(old, side_ref, toxic_expected(side)), instructions[0]);
}

/// The instructions that a toxic reset appends record exactly the change it
/// makes: applied to the state before, they give the state after, and undone
/// on the state after, they give the state before.
pub proof fn lemma_toxic_reset_recorded(old: State, new: State, side_ref: SideReference)
    requires
        only_side_changed(old, new, side_ref),
        toxic_reset(old.side(side_ref), new.side(side_ref)),
    ensures
        apply_instructions(old, toxic_reset_instructions(old.side(side_ref), side_ref)) == new,
        reverse_instructions(new, toxic_reset_instructions(old.side(side_ref), side_ref)) == old,
{
    let side = old.side(side_ref);
    lemma_toxic_expected(old, new, side_ref);
    lemma_with_own_side(old, side_ref);
    if side.side_conditions.toxic_count > 0 && side.active().status == PokemonStatus::TOXIC {
        lemma_toxic_both_steps(old, side_ref);
    } else if side.side_conditions.toxic_count > 0 || side.active().status == PokemonStatus::TOXIC {
        lemma_toxic_one_step(old, side_ref);
    } else {
        assert(toxic_reset_instructions(side, side_ref) =~= Seq::<Instruction>::empty());
        assert(toxic_expected(side) == side);
    }
}

/// A list of choices as the engine offers it: moves, switches and the choice
/// to do nothing, no choice twice, and doing nothing only as the sole choice.
pub open spec fn well_formed_options(options: Seq<MoveChoice>) -> bool {
    &&& forall|k: int|
        0 <= k < options.len() ==> ((#[trigger] options[k]) is Move || options[k] is Switch
            || options[k] is NoMove)
    &&& options.no_duplicates()
    &&& options.contains(MoveChoice::NoMove) ==> options == seq![MoveChoice::NoMove]
}

/// Moves and switches only, none twice.
spec fn distinct_choices(options: Seq<MoveChoice>) -> bool {
    &&& forall|k: int| 0 <= k < options.len() ==> ((#[trigger] options[k]) is Move || options[k] is Switch)
    &&& options.no_duplicates()
}

proof fn lemma_available_moves_distinct(p: Pokemon, last: LastUsedMove, encored: bool, n: nat)
    requires
        n <= 4,
    ensures
        distinct_choices(available_moves(p, last, encored, n)),
        forall|k: int|
            0 <= k < available_moves(p, last, encored, n).len() ==> ((#[trigger] available_moves(
                p,
                last,
                encored,
                n,
            )[k]) matches MoveChoice::Move(m) && m.idx() < n),
    decreases n,
{
    if n > 0 {
        lemma_available_moves_distinct(p, last, encored, (n - 1) as nat);
        assert(PokemonMoveIndex::from_int(n - 1).idx() == n - 1);
    }
}

proof fn lemma_moves_matching_distinct(p: Pokemon, choice: crate::choices::Choices, n: nat)
    requires
        n <= 4,
    ensures
        distinct_choices(moves_matching(p, choice, n)),
        forall|k: int|
            0 <= k < moves_matching(p, choice, n).len() ==> ((#[trigger] moves_matching(p, choice, n)[k]) matches MoveChoice::Move(m)
                && m.idx() < n),
    decreases n,
{
    if n > 0 {
        lemma_moves_matching_distinct(p, choice, (n - 1) as nat);
        assert(PokemonMoveIndex::from_int(n - 1).idx() == n - 1);
    }
}

proof fn lemma_switch_options_distinct(side: Side, n: nat)
    requires
        n <= 6,
    ensures
        distinct_choices(switch_options(side, n)),
        forall|k: int|
            0 <= k < switch_options(side, n).len() ==> ((#[trigger] switch_options(side, n)[k]) matches MoveChoice::Switch(p)
                && p.idx() < n),
    decreases n,
{
    if n > 0 {
        lemma_switch_options_distinct(side, (n - 1) as nat);
        lemma_index_round_trip(n - 1);
    }
}

proof fn lemma_team_preview_options_distinct(side: Side, n: nat)
    requires
        n <= 6,
    ensures
        distinct_choices(team_preview_options(side, n)),
        forall|k: int|
            0 <= k < team_preview_options(side, n).len() ==> ((#[trigger] team_preview_options(side, n)[k]) matches MoveChoice::Switch(p)
                && p.idx() < n),
    decreases n,
{
    if n > 0 {
        lemma_team_preview_options_distinct(side, (n - 1) as nat);
        lemma_index_round_trip(n - 1);
    }
}

proof fn lemma_or_no_move_well_formed(options: Seq<MoveChoice>)
    requires
        distinct_choices(options),
    ensures
        well_formed_options(or_no_move(options)),
{
    if options.len() == 0 {
        assert(seq![MoveChoice::NoMove].no_duplicates());
    } else {
        assert(!options.contains(MoveChoice::NoMove));
    }
}

proof fn lemma_moves_then_switches_distinct(side: Side, moves: Seq<MoveChoice>)
    requires
        distinct_choices(moves),
        forall|k: int| 0 <= k < moves.len() ==> (#[trigger] moves[k]) is Move,
    ensures
        distinct_choices(moves + switch_options(side, 6)),
        well_formed_options(with_switches(side, moves)),
{
    let sw = switch_options(side, 6);
    lemma_switch_options_distinct(side, 6);
    let all = moves + sw;
    assert forall|a: int, b: int| 0 <= a < all.len() && 0 <= b < all.len() && a != b implies all[a] != all[b] by {
        if a < moves.len() && b >= moves.len() {
            assert(all[a] is Move);
            assert(all[b] == sw[b - moves.len()]);
        }
        if b < moves.len() && a >= moves.len() {
            assert(all[b] is Move);
            assert(all[a] == sw[a - moves.len()]);
        }
        if a >= moves.len() && b >= moves.len() {
            assert(all[a] == sw[a - moves.len()]);
            assert(all[b] == sw[b - moves.len()]);
        }
    }
    assert forall|k: int| 0 <= k < all.len() implies ((#[trigger] all[k]) is Move || all[k] is Switch) by {
        if k >= moves.len() {
            assert(all[k] == sw[k - moves.len()]);
        }
    }
    lemma_or_no_move_well_formed(all);
}

proof fn lemma_saved_move_options_well_formed(side: Side)
    ensures
        well_formed_options(saved_move_options(side)),
{
    lemma_moves_matching_distinct(side.active(), side.switch_out_move_second_saved_move, 4);
    let m = moves_matching(side.active(), side.switch_out_move_second_saved_move, 4);
    if side.switch_out_move_second_saved_move == crate::choices::Choices::NONE {
        assert(seq![MoveChoice::NoMove].no_duplicates());
    } else {
        assert(!m.contains(MoveChoice::NoMove));
    }
}

proof fn lemma_regular_options_well_formed(side: Side)
    ensures
        well_formed_options(regular_options(side)),
{
    let moves = side_available_moves(side);
    lemma_available_moves_distinct(side.active(), side.last_used_move, side_encored(side), 4);
    lemma_moves_then_switches_distinct(side, moves);
    lemma_or_no_move_well_formed(moves);
    assert(seq![MoveChoice::NoMove].no_duplicates());
    if !side.volatile_statuses@.contains(PokemonVolatileStatus::MUSTRECHARGE) && !side_trapped(side) {
        assert(or_no_move(with_switches(side, moves)) == with_switches(side, moves));
    }
}

proof fn lemma_switches_only_well_formed(side: Side)
    ensures
        well_formed_options(with_switches(side, Seq::empty())),
{
    lemma_moves_then_switches_distinct(side, Seq::empty());
}

/// Every list of choices offered for the next decision is well formed.
pub proof fn lemma_all_options_well_formed(state: State)
    ensures
        well_formed_options(all_options(state).0),
        well_formed_options(all_options(state).1),
{
    lemma_switches_only_well_formed(state.side_one);
    lemma_switches_only_well_formed(state.side_two);
    lemma_saved_move_options_well_formed(state.side_one);
    lemma_saved_move_options_well_formed(state.side_two);
    lemma_regular_options_well_formed(state.side_one);
    lemma_regular_options_well_formed(state.side_two);
    assert(seq![MoveChoice::NoMove].no_duplicates());
}

proof fn lemma_without_switches_well_formed(options: Seq<MoveChoice>)
    requires
        well_formed_options(options),
    ensures
        well_formed_options(without_switches(options)),
    decreases options.len(),
{
    lemma_without_switches_only_moves(options);
    if options.len() > 0 {
        let prev = options.drop_last();
        assert(well_formed_options(prev)) by {
            assert forall|k: int| 0 <= k < prev.len() implies ((#[trigger] prev[k]) is Move || prev[k] is Switch
                || prev[k] is NoMove) by {
                assert(prev[k] == options[k]);
            }
            if prev.contains(MoveChoice::NoMove) {
                let k = choose|k: int| 0 <= k < prev.len() && prev[k] == MoveChoice::NoMove;
                assert(options[k] == MoveChoice::NoMove);
                assert(options.contains(MoveChoice::NoMove));
                assert(options.len() == 1);
            }
        }
        lemma_without_switches_well_formed(prev);
        lemma_without_switches_only_moves(prev);
        let w = without_switches(options);
        let wp = without_switches(prev);
        if open_when_trapped(options.last()) {
            assert(!wp.contains(options.last())) by {
                if wp.contains(options.last()) {
                    let k = choose|k: int| 0 <= k < wp.len() && wp[k] == options.last();
                    assert(prev.contains(wp[k]));
                    let j = choose|j: int| 0 <= j < prev.len() && prev[j] == wp[k];
                    assert(options[j] == options[options.len() - 1]);
                }
            }
            assert forall|a: int, b: int| 0 <= a < w.len() && 0 <= b < w.len() && a != b implies w[a] != w[b] by {
                if a < wp.len() && b == wp.len() {
                    assert(wp.contains(wp[a]));
                }
                if b < wp.len() && a == wp.len() {
                    assert(wp.contains(wp[b]));
                }
            }
        }
        if w.contains(MoveChoice::NoMove) {
            let k = choose|k: int| 0 <= k < w.len() && w[k] == MoveChoice::NoMove;
            assert(options.contains(w[k]));
            assert(options == seq![MoveChoice::NoMove]);
            assert(prev =~= Seq::<MoveChoice>::empty());
            assert(w =~= seq![MoveChoice::NoMove]);
        }
    }
}

proof fn lemma_root_side_options_well_formed(side: Side, options: Seq<MoveChoice>)
    requires
        well_formed_options(options),
    ensures
        well_formed_options(root_side_options(side, options)),
{
    lemma_without_switches_well_formed(options);
    lemma_available_moves_distinct(side.active(), side.last_used_move, side_encored(side), 4);
    lemma_or_no_move_well_formed(side_available_moves(side));
    assert(seq![MoveChoice::NoMove].no_duplicates());
}

/// Every list of choices offered at the root of a search is well formed.
pub proof fn lemma_root_options_well_formed(state: State)
    ensures
        well_formed_options(root_options(state).0),
        well_formed_options(root_options(state).1),
{
    if state.team_preview {
        lemma_team_preview_options_distinct(state.side_one, 6);
        lemma_team_preview_options_distinct(state.side_two, 6);
        let t1 = team_preview_options(state.side_one, 6);
        let t2 = team_preview_options(state.side_two, 6);
        assert(!t1.contains(MoveChoice::NoMove));
        assert(!t2.contains(MoveChoice::NoMove));
    } else {
        lemma_all_options_well_formed(state);
        lemma_root_side_options_well_formed(state.side_one, all_options(state).0);
        lemma_root_side_options_well_formed(state.side_two, all_options(state).1);
    }
}

} // verus!

//! The generation 2 rules stated directly over a state's contents: what each
//! side may choose, what a switch keeps, how boost stages scale a stat, and
//! when a volatile status takes hold.
use vstd::prelude::*;

use crate::choices::Choices;
use crate::gen2::laws::{
    lemma_available_moves_are_moves, lemma_switch_options_valid,
    lemma_switch_out_removes_exactly, lemma_without_switches_only_moves,
};
use crate::gen2::state::{
    all_options, available_moves, boosted, div_toward_zero, kept_statuses, move_selectable,
    moves_matching, or_no_move, regular_options, removed_on_switch, root_options, switch_options,
    team_preview_options, volatile_status_applicable, with_switches, without_switches,
};
use crate::gen2::state::{
    base_stat, boost_of, damage_dealt_moves, last_used_move_moves, state_has_any_move, toxic_reset,
    toxic_reset_instructions, with_damage_dealt_flag, with_last_used_move_flag,
};
use crate::instruction::Instruction;
use crate::state::{
    LastUsedMove, MoveChoice, Pokemon, PokemonBoostableStat, PokemonIndex, PokemonMoveIndex,
    PokemonSideCondition, PokemonStatus, Side, SideReference, State,
};
use crate::volatile::{PokemonVolatileStatus, VOLATILE_STATUS_COUNT};

verus! {

/// Whether move slot `m` of `p` may be chosen: it is enabled and has pp left;
/// after using a move an encored side may pick only that move; and Blood Moon
/// or Gigaton Hammer cannot be used twice in a row. Any other move may be
/// repeated.
pub open spec fn may_choose_move(p: Pokemon, m: PokemonMoveIndex, last_used_move: LastUsedMove, encored: bool) -> bool {
    &&& !p.moves[m.idx()].disabled
    &&& p.moves[m.idx()].pp > 0
    &&& (last_used_move matches LastUsedMove::Move(l) ==> ((encored ==> l == m) && !(l == m && (
    p.moves[m.idx()].id == Choices::BLOODMOON || p.moves[m.idx()].id == Choices::GIGATONHAMMER))))
}

proof fn lemma_move_index_from_int(i: int)
    requires
        0 <= i < 4,
    ensures
        PokemonMoveIndex::from_int(i).idx() == i,
        forall|m: PokemonMoveIndex| m.idx() == i ==> m == PokemonMoveIndex::from_int(i),
{
}

proof fn lemma_available_moves_members(p: Pokemon, last_used_move: LastUsedMove, encored: bool, n: nat)
    requires
        n <= 4,
    ensures
        forall|m: PokemonMoveIndex|
            #[trigger] available_moves(p, last_used_move, encored, n).contains(MoveChoice::Move(m)) <==> (
            m.idx() < n && move_selectable(p, m.idx(), last_used_move, encored)),
    decreases n,
{
    if n > 0 {
        let prev = available_moves(p, last_used_move, encored, (n - 1) as nat);
        let cur = available_moves(p, last_used_move, encored, n);
        lemma_available_moves_members(p, last_used_move, encored, (n - 1) as nat);
        lemma_move_index_from_int(n - 1);
        assert forall|m: PokemonMoveIndex|
            #[trigger] cur.contains(MoveChoice::Move(m)) <==> (m.idx() < n && move_selectable(
                p,
                m.idx(),
                last_used_move,
                encored,
            )) by {
            if move_selectable(p, n - 1, last_used_move, encored) {
                if cur.contains(MoveChoice::Move(m)) && !prev.contains(MoveChoice::Move(m)) {
                    let k = choose|k: int| 0 <= k < cur.len() && cur[k] == MoveChoice::Move(m);
                    assert(k == prev.len());
                }
                if prev.contains(MoveChoice::Move(m)) {
                    let k = choose|k: int| 0 <= k < prev.len() && prev[k] == MoveChoice::Move(m);
                    assert(cur[k] == MoveChoice::Move(m));
                }
                if m.idx() == n - 1 {
                    assert(cur[cur.len() - 1] == MoveChoice::Move(m));
                }
            }
        }
    }
}

/// The moves offered to a pokemon are exactly the ones it may choose: none
/// is left out and none is added. In particular, without encore, a move that
/// is neither Blood Moon nor Gigaton Hammer stays open after being used.
pub proof fn lemma_offered_moves_are_exactly_the_choosable_ones(
    p: Pokemon,
    last_used_move: LastUsedMove,
    encored: bool,
)
    ensures
        forall|m: PokemonMoveIndex|
            #[trigger] available_moves(p, last_used_move, encored, 4).contains(MoveChoice::Move(m))
                <==> may_choose_move(p, m, last_used_move, encored),
{
    lemma_available_moves_members(p, last_used_move, encored, 4);
    assert forall|m: PokemonMoveIndex|
        #[trigger] available_moves(p, last_used_move, encored, 4).contains(MoveChoice::Move(m))
            <==> may_choose_move(p, m, last_used_move, encored) by {
        if let LastUsedMove::Move(l) = last_used_move {
            assert(l.idx() == m.idx() <==> l == m);
        }
    }
}

/// While one side replaces its fainted active pokemon, the other side, whose
/// active pokemon is alive, waits: its only choice is to do nothing. The side
/// that replaces may only switch (or do nothing when no pokemon can come in).
pub proof fn lemma_other_side_waits_while_fainted_is_replaced(state: State)
    requires
        !state.side_one.force_switch,
        !state.side_two.force_switch,
    ensures
        state.side_one.active().hp <= 0 && state.side_two.active().hp > 0 ==> all_options(state).1
            == seq![MoveChoice::NoMove],
        state.side_two.active().hp <= 0 && state.side_one.active().hp > 0 ==> all_options(state).0
            == seq![MoveChoice::NoMove],
        state.side_one.active().hp <= 0 ==> forall|k: int|
            0 <= k < all_options(state).0.len() ==> ((#[trigger] all_options(state).0[k]) is Switch
                || all_options(state).0[k] is NoMove),
        state.side_two.active().hp <= 0 ==> forall|k: int|
            0 <= k < all_options(state).1.len() ==> ((#[trigger] all_options(state).1[k]) is Switch
                || all_options(state).1[k] is NoMove),
{
    lemma_switches_only(state.side_one);
    lemma_switches_only(state.side_two);
}

proof fn lemma_switches_only(side: Side)
    ensures
        forall|k: int|
            0 <= k < with_switches(side, Seq::empty()).len() ==> ((#[trigger] with_switches(
                side,
                Seq::empty(),
            )[k]) is Switch || with_switches(side, Seq::empty())[k] is NoMove),
{
    crate::gen2::laws::lemma_switch_options_valid(side, 6);
    assert(Seq::<MoveChoice>::empty() + crate::gen2::state::switch_options(side, 6)
        =~= crate::gen2::state::switch_options(side, 6));
}

/// Baton pass hands on a substitute and leech seed and nothing else; without
/// baton pass nothing stays. Every other status present is removed, and
/// recorded as removed.
pub proof fn lemma_switch_keeps_only_substitute_and_leech_seed(statuses: Set<PokemonVolatileStatus>)
    ensures
        forall|v: PokemonVolatileStatus|
            #[trigger] kept_statuses(statuses, true).contains(v) <==> (statuses.contains(v) && (v
                == PokemonVolatileStatus::SUBSTITUTE || v == PokemonVolatileStatus::LEECHSEED)),
        forall|v: PokemonVolatileStatus|
            #[trigger] removed_on_switch(statuses, true, VOLATILE_STATUS_COUNT as nat).contains(v) <==> (
            statuses.contains(v) && v != PokemonVolatileStatus::SUBSTITUTE && v
                != PokemonVolatileStatus::LEECHSEED),
        forall|v: PokemonVolatileStatus| !(#[trigger] kept_statuses(statuses, false).contains(v)),
        forall|v: PokemonVolatileStatus|
            #[trigger] removed_on_switch(statuses, false, VOLATILE_STATUS_COUNT as nat).contains(v)
                <==> statuses.contains(v),
{
    lemma_switch_out_removes_exactly(statuses, true);
    lemma_switch_out_removes_exactly(statuses, false);
}

/// The stage table on a stat that is not negative: -6 gives a quarter, -5
/// 28%, -4 33%, -3 40%, -2 half, -1 66% (all rounded down), 0 the stat, and
/// +1 to +6 give 3/2, 2, 5/2, 3, 7/2 and 4 times the stat (rounded down).
pub proof fn lemma_boost_stage_table(stat: int)
    requires
        stat >= 0,
    ensures
        boosted(-6, stat) == stat / 4,
        boosted(-5, stat) == stat * 28 / 100,
        boosted(-4, stat) == stat * 33 / 100,
        boosted(-3, stat) == stat * 2 / 5,
        boosted(-2, stat) == stat / 2,
        boosted(-1, stat) == stat * 66 / 100,
        boosted(0, stat) == stat,
        boosted(1, stat) == stat * 3 / 2,
        boosted(2, stat) == 2 * stat,
        boosted(3, stat) == stat * 5 / 2,
        boosted(4, stat) == 3 * stat,
        boosted(5, stat) == stat * 7 / 2,
        boosted(6, stat) == 4 * stat,
{
    assert((stat * 25) / 100 == stat / 4) by (nonlinear_arith)
        requires
            stat >= 0,
    ;
    assert((stat * 40) / 100 == stat * 2 / 5) by (nonlinear_arith)
        requires
            stat >= 0,
    ;
    assert((stat * 50) / 100 == stat / 2) by (nonlinear_arith)
        requires
            stat >= 0,
    ;
    assert(div_toward_zero(stat * 1, 1) == stat) by (nonlinear_arith);
    assert((stat * 4) / 2 == 2 * stat) by (nonlinear_arith);
    assert((stat * 6) / 2 == 3 * stat) by (nonlinear_arith);
    assert((stat * 8) / 2 == 4 * stat) by (nonlinear_arith);
}

/// On a stat of at least 100, every higher stage gives strictly more.
pub proof fn lemma_boost_stages_strictly_increase(b1: int, b2: int, stat: int)
    requires
        -6 <= b1 < b2 <= 6,
        stat >= 100,
    ensures
        boosted(b1, stat) < boosted(b2, stat),
    decreases b2 - b1,
{
    lemma_boost_stage_table(stat);
    if b2 - b1 > 1 {
        lemma_boost_stages_strictly_increase(b1, b2 - 1, stat);
        lemma_boost_stages_strictly_increase(b2 - 1, b2, stat);
    } else {
        assert(stat / 4 < stat * 28 / 100) by (nonlinear_arith)
            requires
                stat >= 100,
        ;
        assert(stat * 28 / 100 < stat * 33 / 100) by (nonlinear_arith)
            requires
                stat >= 100,
        ;
        assert(stat * 33 / 100 < stat * 2 / 5) by (nonlinear_arith)
            requires
                stat >= 100,
        ;
        assert(stat * 2 / 5 < stat / 2) by (nonlinear_arith)
            requires
                stat >= 100,
        ;
        assert(stat / 2 < stat * 66 / 100) by (nonlinear_arith)
            requires
                stat >= 100,
        ;
        assert(stat * 66 / 100 < stat) by (nonlinear_arith)
            requires
                stat >= 100,
        ;
        assert(stat < stat * 3 / 2) by (nonlinear_arith)
            requires
                stat >= 100,
        ;
        assert(stat * 3 / 2 < 2 * stat) by (nonlinear_arith)
            requires
                stat >= 100,
        ;
        assert(2 * stat < stat * 5 / 2) by (nonlinear_arith)
            requires
                stat >= 100,
        ;
        assert(stat * 5 / 2 < 3 * stat) by (nonlinear_arith)
            requires
                stat >= 100,
        ;
        assert(3 * stat < stat * 7 / 2) by (nonlinear_arith)
            requires
                stat >= 100,
        ;
        assert(stat * 7 / 2 < 4 * stat) by (nonlinear_arith)
            requires
                stat >= 100,
        ;
    }
}

/// When a volatile status takes hold: never twice, never on a fainted
/// pokemon; a substitute blocks confusion and leech seed; a substitute needs
/// more than a quarter of the maximum hp; flinch and protect work only when
/// moving first; any other status takes hold.
pub proof fn lemma_when_volatile_status_applies(
    p: Pokemon,
    v: PokemonVolatileStatus,
    active: Set<PokemonVolatileStatus>,
    first_move: bool,
)
    ensures
        active.contains(v) ==> !volatile_status_applicable(p, v, active, first_move),
        p.hp == 0 ==> !volatile_status_applicable(p, v, active, first_move),
        active.contains(PokemonVolatileStatus::SUBSTITUTE) && (v == PokemonVolatileStatus::CONFUSION || v
            == PokemonVolatileStatus::LEECHSEED) ==> !volatile_status_applicable(p, v, active, first_move),
        !active.contains(PokemonVolatileStatus::SUBSTITUTE) && !active.contains(v) && p.hp != 0 && (v
            == PokemonVolatileStatus::CONFUSION || v == PokemonVolatileStatus::LEECHSEED)
            ==> volatile_status_applicable(p, v, active, first_move),
        v == PokemonVolatileStatus::SUBSTITUTE && !active.contains(v) && p.maxhp >= 0 ==> (
        volatile_status_applicable(p, v, active, first_move) <==> (p.hp != 0 && p.hp > p.maxhp / 4)),
        (v == PokemonVolatileStatus::FLINCH || v == PokemonVolatileStatus::PROTECT) && !active.contains(v)
            && p.hp != 0 ==> (volatile_status_applicable(p, v, active, first_move) <==> first_move),
        v != PokemonVolatileStatus::CONFUSION && v != PokemonVolatileStatus::LEECHSEED && v
            != PokemonVolatileStatus::SUBSTITUTE && v != PokemonVolatileStatus::FLINCH && v
            != PokemonVolatileStatus::PROTECT && !active.contains(v) && p.hp != 0
            ==> volatile_status_applicable(p, v, active, first_move),
{
}

proof fn lemma_push_contains<A>(s: Seq<A>, x: A)
    ensures
        forall|y: A| #[trigger] s.push(x).contains(y) <==> (s.contains(y) || y == x),
{
    assert forall|y: A| #[trigger] s.push(x).contains(y) <==> (s.contains(y) || y == x) by {
        if s.push(x).contains(y) && y != x {
            let k = choose|k: int| 0 <= k < s.push(x).len() && s.push(x)[k] == y;
            assert(k < s.len());
            assert(s[k] == y);
        }
        if s.contains(y) {
            let k = choose|k: int| 0 <= k < s.len() && s[k] == y;
            assert(s.push(x)[k] == y);
        }
        if y == x {
            assert(s.push(x)[s.len() as int] == y);
        }
    }
}

proof fn lemma_concat_contains<A>(a: Seq<A>, b: Seq<A>)
    ensures
        forall|y: A| #[trigger] (a + b).contains(y) <==> (a.contains(y) || b.contains(y)),
{
    assert forall|y: A| #[trigger] (a + b).contains(y) <==> (a.contains(y) || b.contains(y)) by {
        if (a + b).contains(y) {
            let k = choose|k: int| 0 <= k < (a + b).len() && (a + b)[k] == y;
            if k < a.len() {
                assert(a[k] == y);
            } else {
                assert(b[k - a.len()] == y);
            }
        }
        if a.contains(y) {
            let k = choose|k: int| 0 <= k < a.len() && a[k] == y;
            assert((a + b)[k] == y);
        }
        if b.contains(y) {
            let k = choose|k: int| 0 <= k < b.len() && b[k] == y;
            assert((a + b)[k + a.len()] == y);
        }
    }
}

/// Whether `side` may bring in the pokemon in slot `p`: it is alive and not
/// already on the field.
pub open spec fn may_switch_to(side: Side, p: PokemonIndex) -> bool {
    side.pokemon[p.idx()].hp > 0 && p != side.active_index
}

proof fn lemma_index_from_int(i: int)
    requires
        0 <= i < 6,
    ensures
        PokemonIndex::from_int(i).idx() == i,
        forall|p: PokemonIndex| p.idx() == i ==> p == PokemonIndex::from_int(i),
{
}

proof fn lemma_switch_options_members(side: Side, n: nat)
    requires
        n <= 6,
    ensures
        forall|p: PokemonIndex|
            #[trigger] switch_options(side, n).contains(MoveChoice::Switch(p)) <==> (p.idx() < n
                && may_switch_to(side, p)),
    decreases n,
{
    if n > 0 {
        let prev = switch_options(side, (n - 1) as nat);
        lemma_switch_options_members(side, (n - 1) as nat);
        lemma_index_from_int(n - 1);
        let x = MoveChoice::Switch(PokemonIndex::from_int(n - 1));
        lemma_push_contains(prev, x);
    }
}

proof fn lemma_team_preview_members(side: Side, n: nat)
    requires
        n <= 6,
    ensures
        forall|p: PokemonIndex|
            #[trigger] team_preview_options(side, n).contains(MoveChoice::Switch(p)) <==> (p.idx() < n
                && side.pokemon[p.idx()].hp > 0),
        forall|k: int|
            0 <= k < team_preview_options(side, n).len() ==> (#[trigger] team_preview_options(side, n)[k]) is Switch,
    decreases n,
{
    if n > 0 {
        let prev = team_preview_options(side, (n - 1) as nat);
        lemma_team_preview_members(side, (n - 1) as nat);
        lemma_index_from_int(n - 1);
        let x = MoveChoice::Switch(PokemonIndex::from_int(n - 1));
        lemma_push_contains(prev, x);
    }
}

proof fn lemma_moves_matching_members(p: Pokemon, choice: Choices, n: nat)
    requires
        n <= 4,
    ensures
        forall|m: PokemonMoveIndex|
            #[trigger] moves_matching(p, choice, n).contains(MoveChoice::Move(m)) <==> (m.idx() < n
                && p.moves[m.idx()].id == choice),
    decreases n,
{
    if n > 0 {
        let prev = moves_matching(p, choice, (n - 1) as nat);
        lemma_moves_matching_members(p, choice, (n - 1) as nat);
        lemma_move_index_from_int(n - 1);
        let x = MoveChoice::Move(PokemonMoveIndex::from_int(n - 1));
        lemma_push_contains(prev, x);
    }
}

proof fn lemma_no_switch_in_moves(options: Seq<MoveChoice>)
    requires
        forall|k: int| 0 <= k < options.len() ==> (#[trigger] options[k]) is Move,
    ensures
        forall|p: PokemonIndex| !(#[trigger] options.contains(MoveChoice::Switch(p))),
        !options.contains(MoveChoice::NoMove),
{
    assert forall|p: PokemonIndex| !(#[trigger] options.contains(MoveChoice::Switch(p))) by {
        if options.contains(MoveChoice::Switch(p)) {
            let k = choose|k: int| 0 <= k < options.len() && options[k] == MoveChoice::Switch(p);
            assert(options[k] is Move);
        }
    }
    if options.contains(MoveChoice::NoMove) {
        let k = choose|k: int| 0 <= k < options.len() && options[k] == MoveChoice::NoMove;
        assert(options[k] is Move);
    }
}

proof fn lemma_no_move_in_switches(side: Side)
    ensures
        forall|m: PokemonMoveIndex| !(#[trigger] switch_options(side, 6).contains(MoveChoice::Move(m))),
        !switch_options(side, 6).contains(MoveChoice::NoMove),
{
    lemma_switch_options_valid(side, 6);
    let s = switch_options(side, 6);
    assert forall|m: PokemonMoveIndex| !(#[trigger] s.contains(MoveChoice::Move(m))) by {
        if s.contains(MoveChoice::Move(m)) {
            let k = choose|k: int| 0 <= k < s.len() && s[k] == MoveChoice::Move(m);
            assert(s[k] is Switch);
        }
    }
    if s.contains(MoveChoice::NoMove) {
        let k = choose|k: int| 0 <= k < s.len() && s[k] == MoveChoice::NoMove;
        assert(s[k] is Switch);
    }
}

/// The choices of a side that must bring in a pokemon: a switch to each one
/// it may bring in, and nothing else; or only doing nothing, when there is
/// none.
pub open spec fn only_switches_to_pokemon_that_may_come_in(side: Side, options: Seq<MoveChoice>) -> bool {
    &&& forall|p: PokemonIndex| #[trigger] options.contains(MoveChoice::Switch(p)) <==> may_switch_to(side, p)
    &&& forall|m: PokemonMoveIndex| !(#[trigger] options.contains(MoveChoice::Move(m)))
    &&& options.contains(MoveChoice::NoMove) <==> !exists|p: PokemonIndex| #[trigger] may_switch_to(side, p)
}

proof fn lemma_switch_only_list(side: Side)
    ensures
        only_switches_to_pokemon_that_may_come_in(side, with_switches(side, Seq::empty())),
{
    let s = switch_options(side, 6);
    lemma_switch_options_members(side, 6);
    lemma_no_move_in_switches(side);
    assert(Seq::<MoveChoice>::empty() + s =~= s);
    let w = with_switches(side, Seq::empty());
    if s.len() == 0 {
        assert forall|p: PokemonIndex| !(#[trigger] may_switch_to(side, p)) by {
            if may_switch_to(side, p) {
                assert(s.contains(MoveChoice::Switch(p)));
            }
        }
        assert(w == seq![MoveChoice::NoMove]);
        assert(w.contains(MoveChoice::NoMove)) by {
            assert(w[0] == MoveChoice::NoMove);
        }
    } else {
        let c = s[0];
        lemma_switch_options_valid(side, 6);
        let p = choose|p: PokemonIndex| c == MoveChoice::Switch(p);
        assert(s.contains(MoveChoice::Switch(p)));
        assert(may_switch_to(side, p));
    }
}

/// The choices of a side in an ordinary turn, when neither side must switch
/// and both active pokemon stand: a side that must recharge only does
/// nothing; otherwise it may use exactly the moves it may choose, and switch
/// to exactly the pokemon it may bring in unless it is locked into a move or
/// partially trapped.
pub open spec fn ordinary_turn_options(side: Side, options: Seq<MoveChoice>) -> bool {
    if side.volatile_statuses@.contains(PokemonVolatileStatus::MUSTRECHARGE) {
        options == seq![MoveChoice::NoMove]
    } else {
        &&& forall|m: PokemonMoveIndex|
            #[trigger] options.contains(MoveChoice::Move(m)) <==> may_choose_move(
                side.active(),
                m,
                side.last_used_move,
                side.volatile_statuses@.contains(PokemonVolatileStatus::ENCORE),
            )
        &&& forall|p: PokemonIndex|
            #[trigger] options.contains(MoveChoice::Switch(p)) <==> (!side.volatile_statuses@.contains(
                PokemonVolatileStatus::LOCKEDMOVE,
            ) && !side.volatile_statuses@.contains(PokemonVolatileStatus::PARTIALLYTRAPPED)
                && may_switch_to(side, p))
    }
}

proof fn lemma_or_no_move_keeps(options: Seq<MoveChoice>)
    ensures
        forall|m: PokemonMoveIndex|
            #[trigger] or_no_move(options).contains(MoveChoice::Move(m)) <==> options.contains(MoveChoice::Move(m)),
        forall|p: PokemonIndex|
            #[trigger] or_no_move(options).contains(MoveChoice::Switch(p)) <==> options.contains(MoveChoice::Switch(p)),
{
    if options.len() == 0 {
        let o = or_no_move(options);
        assert forall|m: PokemonMoveIndex| !(#[trigger] o.contains(MoveChoice::Move(m))) by {
            if o.contains(MoveChoice::Move(m)) {
                let k = choose|k: int| 0 <= k < o.len() && o[k] == MoveChoice::Move(m);
            }
        }
        assert forall|p: PokemonIndex| !(#[trigger] o.contains(MoveChoice::Switch(p))) by {
            if o.contains(MoveChoice::Switch(p)) {
                let k = choose|k: int| 0 <= k < o.len() && o[k] == MoveChoice::Switch(p);
            }
        }
    }
}

proof fn lemma_regular_options_members(side: Side)
    ensures
        ordinary_turn_options(side, regular_options(side)),
{
    let p = side.active();
    let encored = side.volatile_statuses@.contains(PokemonVolatileStatus::ENCORE);
    let moves = available_moves(p, side.last_used_move, encored, 4);
    lemma_offered_moves_are_exactly_the_choosable_ones(p, side.last_used_move, encored);
    lemma_available_moves_are_moves(p, side.last_used_move, encored, 4);
    lemma_no_switch_in_moves(moves);
    lemma_switch_options_members(side, 6);
    lemma_no_move_in_switches(side);
    let all = moves + switch_options(side, 6);
    lemma_concat_contains(moves, switch_options(side, 6));
    lemma_or_no_move_keeps(all);
    lemma_or_no_move_keeps(moves);
    lemma_or_no_move_keeps(or_no_move(all));
}

/// In an ordinary turn each side may use exactly the moves it may choose and
/// switch to exactly the pokemon it may bring in, unless it must recharge or
/// is trapped.
pub proof fn lemma_ordinary_turn_choices(state: State)
    requires
        !state.side_one.force_switch,
        !state.side_two.force_switch,
        state.side_one.active().hp > 0,
        state.side_two.active().hp > 0,
    ensures
        ordinary_turn_options(state.side_one, all_options(state).0),
        ordinary_turn_options(state.side_two, all_options(state).1),
{
    lemma_regular_options_members(state.side_one);
    lemma_regular_options_members(state.side_two);
}

/// The choices of a side waiting for the other side to switch out mid-turn:
/// the move it saved, in every slot that holds it, or only doing nothing when
/// it saved none.
pub open spec fn saved_move_choices(side: Side, options: Seq<MoveChoice>) -> bool {
    if side.switch_out_move_second_saved_move == Choices::NONE {
        options == seq![MoveChoice::NoMove]
    } else {
        &&& forall|m: PokemonMoveIndex|
            #[trigger] options.contains(MoveChoice::Move(m)) <==> side.active().moves[m.idx()].id
                == side.switch_out_move_second_saved_move
        &&& forall|p: PokemonIndex| !(#[trigger] options.contains(MoveChoice::Switch(p)))
        &&& !options.contains(MoveChoice::NoMove)
    }
}

/// A side forced to switch may only switch, to exactly the pokemon it may
/// bring in; meanwhile the other side may only use the move it saved.
/// Otherwise, a side whose active pokemon fainted may only switch likewise,
/// and the other side then waits unless its own active pokemon fainted too.
pub proof fn lemma_forced_switch_choices(state: State)
    ensures
        state.side_one.force_switch ==> only_switches_to_pokemon_that_may_come_in(
            state.side_one,
            all_options(state).0,
        ) && saved_move_choices(state.side_two, all_options(state).1),
        !state.side_one.force_switch && state.side_two.force_switch ==> saved_move_choices(
            state.side_one,
            all_options(state).0,
        ) && only_switches_to_pokemon_that_may_come_in(state.side_two, all_options(state).1),
        !state.side_one.force_switch && !state.side_two.force_switch && state.side_one.active().hp <= 0
            ==> only_switches_to_pokemon_that_may_come_in(state.side_one, all_options(state).0),
        !state.side_one.force_switch && !state.side_two.force_switch && state.side_two.active().hp <= 0
            ==> only_switches_to_pokemon_that_may_come_in(state.side_two, all_options(state).1),
{
    lemma_switch_only_list(state.side_one);
    lemma_switch_only_list(state.side_two);
    lemma_saved_move_list(state.side_one);
    lemma_saved_move_list(state.side_two);
}

proof fn lemma_moves_matching_all_moves(p: Pokemon, choice: Choices, n: nat)
    ensures
        forall|k: int| 0 <= k < moves_matching(p, choice, n).len() ==> (#[trigger] moves_matching(p, choice, n)[k]) is Move,
    decreases n,
{
    if n > 0 {
        lemma_moves_matching_all_moves(p, choice, (n - 1) as nat);
    }
}

proof fn lemma_saved_move_list(side: Side)
    ensures
        saved_move_choices(side, crate::gen2::state::saved_move_options(side)),
{
    let p = side.active();
    let choice = side.switch_out_move_second_saved_move;
    lemma_moves_matching_members(p, choice, 4);
    lemma_moves_matching_all_moves(p, choice, 4);
    let s = moves_matching(p, choice, 4);
    lemma_no_switch_in_moves(s);
}

/// At the root: in team preview each side may lead with exactly its living
/// pokemon; otherwise a force-trapped side keeps its moves and loses its
/// switches, and a side finishing a slow u-turn may use exactly the moves it
/// may choose and nothing else but, when it has none, doing nothing.
pub proof fn lemma_root_choices(state: State)
    ensures
        state.team_preview ==> forall|p: PokemonIndex|
            #[trigger] root_options(state).0.contains(MoveChoice::Switch(p))
                <==> state.side_one.pokemon[p.idx()].hp > 0,
        state.team_preview ==> forall|p: PokemonIndex|
            #[trigger] root_options(state).1.contains(MoveChoice::Switch(p))
                <==> state.side_two.pokemon[p.idx()].hp > 0,
        !state.team_preview && state.side_one.force_trapped && !state.side_one.slow_uturn_move ==> (
        forall|m: PokemonMoveIndex|
            #[trigger] root_options(state).0.contains(MoveChoice::Move(m)) <==> all_options(state).0.contains(
                MoveChoice::Move(m),
            )),
        !state.team_preview && state.side_one.force_trapped ==> (forall|p: PokemonIndex|
            !(#[trigger] root_options(state).0.contains(MoveChoice::Switch(p)))),
        !state.team_preview && state.side_one.slow_uturn_move ==> (forall|m: PokemonMoveIndex|
            #[trigger] root_options(state).0.contains(MoveChoice::Move(m)) <==> may_choose_move(
                state.side_one.active(),
                m,
                state.side_one.last_used_move,
                state.side_one.volatile_statuses@.contains(PokemonVolatileStatus::ENCORE),
            )),
        !state.team_preview && state.side_one.slow_uturn_move ==> (forall|p: PokemonIndex|
            !(#[trigger] root_options(state).0.contains(MoveChoice::Switch(p)))),
{
    lemma_team_preview_members(state.side_one, 6);
    lemma_team_preview_members(state.side_two, 6);
    if !state.team_preview {
        let s1 = state.side_one;
        let o1 = all_options(state).0;
        let encored = s1.volatile_statuses@.contains(PokemonVolatileStatus::ENCORE);
        let moves = available_moves(s1.active(), s1.last_used_move, encored, 4);
        lemma_offered_moves_are_exactly_the_choosable_ones(s1.active(), s1.last_used_move, encored);
        lemma_available_moves_are_moves(s1.active(), s1.last_used_move, encored, 4);
        lemma_no_switch_in_moves(moves);
        lemma_or_no_move_keeps(moves);
        lemma_without_switches_members(o1);
        lemma_or_no_move_keeps(without_switches(o1));
    }
}

proof fn lemma_without_switches_members(options: Seq<MoveChoice>)
    ensures
        forall|m: PokemonMoveIndex|
            #[trigger] without_switches(options).contains(MoveChoice::Move(m)) <==> options.contains(
                MoveChoice::Move(m),
            ),
        forall|p: PokemonIndex| !(#[trigger] without_switches(options).contains(MoveChoice::Switch(p))),
    decreases options.len(),
{
    lemma_without_switches_only_moves(options);
    let w = without_switches(options);
    assert forall|p: PokemonIndex| !(#[trigger] w.contains(MoveChoice::Switch(p))) by {
        if w.contains(MoveChoice::Switch(p)) {
            let k = choose|k: int| 0 <= k < w.len() && w[k] == MoveChoice::Switch(p);
            assert(crate::gen2::state::open_when_trapped(w[k]));
        }
    }
    if options.len() > 0 {
        let prev = options.drop_last();
        lemma_without_switches_members(prev);
        assert(options =~= prev.push(options.last()));
        lemma_push_contains(prev, options.last());
        lemma_push_contains(without_switches(prev), options.last());
    }
}

/// A toxic reset clears a positive toxic counter, turns a badly poisoned
/// active pokemon into a merely poisoned one, and touches nothing else; it
/// records one toxic-counter change by minus the old count and one status
/// change from toxic to poison on the active slot, each only when it happens.
pub proof fn lemma_toxic_reset_effect(old: Side, new: Side, side_ref: SideReference)
    requires
        toxic_reset(old, new),
    ensures
        new.side_conditions.toxic_count == if old.side_conditions.toxic_count > 0 {
            0
        } else {
            old.side_conditions.toxic_count
        },
        new.active_index == old.active_index,
        new.active().status == if old.active().status == PokemonStatus::TOXIC {
            PokemonStatus::POISON
        } else {
            old.active().status
        },
        new.active().hp == old.active().hp,
        new.active().moves == old.active().moves,
        forall|i: int| 0 <= i < 6 && i != old.active_index.idx() ==> new.pokemon[i] == old.pokemon[i],
        new.side_conditions.spikes == old.side_conditions.spikes,
        new.volatile_statuses == old.volatile_statuses,
        toxic_reset_instructions(old, side_ref).len() == (if old.side_conditions.toxic_count > 0 {
            1int
        } else {
            0int
        }) + (if old.active().status == PokemonStatus::TOXIC {
            1int
        } else {
            0int
        }),
        forall|k: int|
            0 <= k < toxic_reset_instructions(old, side_ref).len() ==> match #[trigger] toxic_reset_instructions(
                old,
                side_ref,
            )[k] {
                Instruction::ChangeSideCondition(c) => c.side_ref == side_ref && c.side_condition
                    == PokemonSideCondition::ToxicCount && c.amount == -old.side_conditions.toxic_count,
                Instruction::ChangeStatus(c) => c.side_ref == side_ref && c.pokemon_index == old.active_index
                    && c.old_status == PokemonStatus::TOXIC && c.new_status == PokemonStatus::POISON,
                Instruction::RemoveVolatileStatus(_) => false,
            },
{
    assert(new.pokemon@[old.active_index.idx()] == new.pokemon[old.active_index.idx()]);
    assert forall|i: int| 0 <= i < 6 && i != old.active_index.idx() implies new.pokemon[i] == old.pokemon[i] by {
        assert(new.pokemon@[i] == new.pokemon[i]);
    }
}

/// Whether some pokemon of `side` has a slot holding move `id`.
pub open spec fn side_knows(side: Side, id: Choices) -> bool {
    exists|i: int, j: int| 0 <= i < 6 && 0 <= j < 4 && #[trigger] side.pokemon[i].moves[j].id == id
}

/// Whether some pokemon of either side has a slot holding move `id`.
pub open spec fn someone_knows(state: State, id: Choices) -> bool {
    side_knows(state.side_one, id) || side_knows(state.side_two, id)
}

proof fn lemma_knows_any(state: State, moves: Seq<Choices>)
    ensures
        state_has_any_move(state, moves) <==> exists|k: int| 0 <= k < moves.len() && someone_knows(state, #[trigger] moves[k]),
{
    if state_has_any_move(state, moves) {
        if crate::gen2::state::side_has_any_move(state.side_one, moves) {
            let (i, j) = choose|i: int, j: int|
                0 <= i < 6 && 0 <= j < 4 && moves.contains(#[trigger] state.side_one.pokemon[i].moves[j].id);
            let k = choose|k: int| 0 <= k < moves.len() && moves[k] == state.side_one.pokemon[i].moves[j].id;
            assert(someone_knows(state, moves[k]));
        } else {
            let (i, j) = choose|i: int, j: int|
                0 <= i < 6 && 0 <= j < 4 && moves.contains(#[trigger] state.side_two.pokemon[i].moves[j].id);
            let k = choose|k: int| 0 <= k < moves.len() && moves[k] == state.side_two.pokemon[i].moves[j].id;
            assert(someone_knows(state, moves[k]));
        }
    }
    if exists|k: int| 0 <= k < moves.len() && someone_knows(state, #[trigger] moves[k]) {
        let k = choose|k: int| 0 <= k < moves.len() && someone_knows(state, #[trigger] moves[k]);
        assert(moves.contains(moves[k]));
        if side_knows(state.side_one, moves[k]) {
            let (i, j) = choose|i: int, j: int|
                0 <= i < 6 && 0 <= j < 4 && #[trigger] state.side_one.pokemon[i].moves[j].id == moves[k];
            assert(crate::gen2::state::side_has_any_move(state.side_one, moves));
        } else {
            let (i, j) = choose|i: int, j: int|
                0 <= i < 6 && 0 <= j < 4 && #[trigger] state.side_two.pokemon[i].moves[j].id == moves[k];
            assert(crate::gen2::state::side_has_any_move(state.side_two, moves));
        }
    }
}

/// Damage-dealt tracking turns on exactly when some pokemon knows Counter,
/// Mirror Coat, Metal Burst, Comeuppance or Focus Punch; last-used-move
/// tracking exactly when some pokemon knows Encore, Fake Out, First
/// Impression, Blood Moon or Gigaton Hammer. A flag once on stays on, and
/// nothing else changes.
pub proof fn lemma_mechanics_flags(state: State)
    ensures
        with_damage_dealt_flag(state).use_damage_dealt <==> (state.use_damage_dealt || someone_knows(
            state,
            Choices::COUNTER,
        ) || someone_knows(state, Choices::MIRRORCOAT) || someone_knows(state, Choices::METALBURST)
            || someone_knows(state, Choices::COMEUPPANCE) || someone_knows(state, Choices::FOCUSPUNCH)),
        with_last_used_move_flag(state).use_last_used_move <==> (state.use_last_used_move || someone_knows(
            state,
            Choices::ENCORE,
        ) || someone_knows(state, Choices::FAKEOUT) || someone_knows(state, Choices::FIRSTIMPRESSION)
            || someone_knows(state, Choices::BLOODMOON) || someone_knows(state, Choices::GIGATONHAMMER)),
        with_damage_dealt_flag(state).side_one == state.side_one,
        with_damage_dealt_flag(state).side_two == state.side_two,
        with_damage_dealt_flag(state).use_last_used_move == state.use_last_used_move,
        with_last_used_move_flag(state).side_one == state.side_one,
        with_last_used_move_flag(state).side_two == state.side_two,
        with_last_used_move_flag(state).use_damage_dealt == state.use_damage_dealt,
{
    let d = damage_dealt_moves();
    let l = last_used_move_moves();
    lemma_knows_any(state, d);
    lemma_knows_any(state, l);
    if someone_knows(state, Choices::COUNTER) {
        assert(d[0] == Choices::COUNTER);
    }
    if someone_knows(state, Choices::MIRRORCOAT) {
        assert(d[1] == Choices::MIRRORCOAT);
    }
    if someone_knows(state, Choices::METALBURST) {
        assert(d[2] == Choices::METALBURST);
    }
    if someone_knows(state, Choices::COMEUPPANCE) {
        assert(d[3] == Choices::COMEUPPANCE);
    }
    if someone_knows(state, Choices::FOCUSPUNCH) {
        assert(d[4] == Choices::FOCUSPUNCH);
    }
    if someone_knows(state, Choices::ENCORE) {
        assert(l[0] == Choices::ENCORE);
    }
    if someone_knows(state, Choices::FAKEOUT) {
        assert(l[1] == Choices::FAKEOUT);
    }
    if someone_knows(state, Choices::FIRSTIMPRESSION) {
        assert(l[2] == Choices::FIRSTIMPRESSION);
    }
    if someone_knows(state, Choices::BLOODMOON) {
        assert(l[3] == Choices::BLOODMOON);
    }
    if someone_knows(state, Choices::GIGATONHAMMER) {
        assert(l[4] == Choices::GIGATONHAMMER);
    }
}

/// A boosted stat reads the side's boost for that stat and the active
/// pokemon's value of that stat; evasion and accuracy have no stat to boost.
pub proof fn lemma_boost_reads_the_matching_stat(side: Side, p: Pokemon)
    ensures
        boost_of(side, PokemonBoostableStat::Attack) == side.attack_boost,
        boost_of(side, PokemonBoostableStat::Defense) == side.defense_boost,
        boost_of(side, PokemonBoostableStat::SpecialAttack) == side.special_attack_boost,
        boost_of(side, PokemonBoostableStat::SpecialDefense) == side.special_defense_boost,
        boost_of(side, PokemonBoostableStat::Speed) == side.speed_boost,
        boost_of(side, PokemonBoostableStat::Evasion) == side.evasion_boost,
        boost_of(side, PokemonBoostableStat::Accuracy) == side.accuracy_boost,
        base_stat(p, PokemonBoostableStat::Attack) == Some(p.attack),
        base_stat(p, PokemonBoostableStat::Defense) == Some(p.defense),
        base_stat(p, PokemonBoostableStat::SpecialAttack) == Some(p.special_attack),
        base_stat(p, PokemonBoostableStat::SpecialDefense) == Some(p.special_defense),
        base_stat(p, PokemonBoostableStat::Speed) == Some(p.speed),
        base_stat(p, PokemonBoostableStat::Evasion) is None,
        base_stat(p, PokemonBoostableStat::Accuracy) is None,
{
}

proof fn lemma_removed_in_bit_order(statuses: Set<PokemonVolatileStatus>, baton_passing: bool, n: nat)
    requires
        n <= VOLATILE_STATUS_COUNT,
    ensures
        forall|a: int, b: int|
            0 <= a < b < removed_on_switch(statuses, baton_passing, n).len() ==> (#[trigger] removed_on_switch(
                statuses,
                baton_passing,
                n,
            )[a]).bit() < (#[trigger] removed_on_switch(statuses, baton_passing, n)[b]).bit(),
        forall|a: int|
            0 <= a < removed_on_switch(statuses, baton_passing, n).len() ==> (#[trigger] removed_on_switch(
                statuses,
                baton_passing,
                n,
            )[a]).bit() < n,
    decreases n,
{
    if n > 0 {
        lemma_removed_in_bit_order(statuses, baton_passing, (n - 1) as nat);
        crate::volatile::lemma_from_bit(n - 1);
        let prev = removed_on_switch(statuses, baton_passing, (n - 1) as nat);
        let cur = removed_on_switch(statuses, baton_passing, n);
        assert forall|a: int| 0 <= a < cur.len() implies (#[trigger] cur[a]).bit() < n by {
            if a < prev.len() {
                assert(cur[a] == prev[a]);
            }
        }
        assert forall|a: int, b: int| 0 <= a < b < cur.len() implies (#[trigger] cur[a]).bit() < (
        #[trigger] cur[b]).bit() by {
            assert(cur[a] == prev[a]);
            if b < prev.len() {
                assert(cur[b] == prev[b]);
            }
        }
    }
}

/// A switch records its removals in the order the statuses are declared.
pub proof fn lemma_switch_removals_in_declaration_order(statuses: Set<PokemonVolatileStatus>, baton_passing: bool)
    ensures
        forall|a: int, b: int|
            0 <= a < b < removed_on_switch(statuses, baton_passing, VOLATILE_STATUS_COUNT as nat).len()
                ==> (#[trigger] removed_on_switch(statuses, baton_passing, VOLATILE_STATUS_COUNT as nat)[a]).bit()
                < (#[trigger] removed_on_switch(statuses, baton_passing, VOLATILE_STATUS_COUNT as nat)[b]).bit(),
{
    lemma_removed_in_bit_order(statuses, baton_passing, VOLATILE_STATUS_COUNT as nat);
}

} // verus!

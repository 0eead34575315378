//! Generation 2 rules on pokemon, sides and the whole state: which choices a
//! side has, stat boosts, status bookkeeping on switches, and the flags that
//! turn on optional mechanics.
use vstd::prelude::*;

use crate::choices::Choices;
use crate::state::{
    LastUsedMove, MoveChoice, Pokemon, PokemonBoostableStat, PokemonIndex, PokemonMoveIndex,
    PokemonSideCondition, PokemonStatus, PokemonType, Side, SideConditions, SideReference, State,
    Terrain, Weather,
};
use crate::instruction::{
    ChangeSideConditionInstruction, ChangeStatusInstruction, Instruction,
    RemoveVolatileStatusInstruction,
};
use crate::volatile::{
    lemma_from_bit, without_statuses, PokemonVolatileStatus, VolatileStatusBitset,
    VOLATILE_STATUS_COUNT,
};

verus! {

/// Integer division rounding toward zero, as Rust's `/` does on signed values.
pub open spec fn div_toward_zero(a: int, b: int) -> int {
    if a >= 0 {
        a / b
    } else {
        -((-a) / b)
    }
}

/// The multiplier of a boost stage, as numerator and denominator.
pub open spec fn boost_fraction(boost: int) -> (int, int) {
    if boost == -6 {
        (25, 100)
    } else if boost == -5 {
        (28, 100)
    } else if boost == -4 {
        (33, 100)
    } else if boost == -3 {
        (40, 100)
    } else if boost == -2 {
        (50, 100)
    } else if boost == -1 {
        (66, 100)
    } else if boost == 0 {
        (1, 1)
    } else {
        (boost + 2, 2)
    }
}

/// A boost stage in `-6..=6` whose scaling of `stat` stays in `i16` on the way.
pub open spec fn boost_applicable(boost: int, stat: int) -> bool {
    &&& -6 <= boost <= 6
    &&& i16::MIN <= stat * boost_fraction(boost).0 <= i16::MAX
}

/// `stat` scaled by boost stage `boost`.
pub open spec fn boosted(boost: int, stat: int) -> int {
    div_toward_zero(stat * boost_fraction(boost).0, boost_fraction(boost).1)
}

fn multiply_boost(boost_num: i8, stat_value: i16) -> (r: i16)
    requires
        boost_applicable(boost_num as int, stat_value as int),
    ensures
        r == boosted(boost_num as int, stat_value as int),
{
    match boost_num {
        -6 => stat_value * 25 / 100,
        -5 => stat_value * 28 / 100,
        -4 => stat_value * 33 / 100,
        -3 => stat_value * 40 / 100,
        -2 => stat_value * 50 / 100,
        -1 => stat_value * 66 / 100,
        0 => stat_value,
        1 => stat_value * 3 / 2,
        2 => stat_value * 4 / 2,
        3 => stat_value * 5 / 2,
        4 => stat_value * 6 / 2,
        5 => stat_value * 7 / 2,
        _ => stat_value * 8 / 2,
    }
}

/// A boost of zero leaves a stat as it is.
pub proof fn lemma_zero_boost_is_identity(stat: int)
    ensures
        boosted(0, stat) == stat,
{
    assert(boost_fraction(0) == (1int, 1int));
    assert(div_toward_zero(stat * 1, 1) == stat) by (nonlinear_arith);
}

/// On a stat that is not negative, a higher boost stage never gives less.
pub proof fn lemma_boost_monotonic(b1: int, b2: int, stat: int)
    requires
        -6 <= b1 <= b2 <= 6,
        stat >= 0,
    ensures
        boosted(b1, stat) <= boosted(b2, stat),
{
    assert(boosted(b1, stat) <= boosted(b2, stat)) by (nonlinear_arith)
        requires
            -6 <= b1 <= b2 <= 6,
            stat >= 0,
            boosted(b1, stat) == div_toward_zero(stat * boost_fraction(b1).0, boost_fraction(b1).1),
            boosted(b2, stat) == div_toward_zero(stat * boost_fraction(b2).0, boost_fraction(b2).1),
            b1 == -6 ==> boost_fraction(b1) == (25int, 100int),
            b1 == -5 ==> boost_fraction(b1) == (28int, 100int),
            b1 == -4 ==> boost_fraction(b1) == (33int, 100int),
            b1 == -3 ==> boost_fraction(b1) == (40int, 100int),
            b1 == -2 ==> boost_fraction(b1) == (50int, 100int),
            b1 == -1 ==> boost_fraction(b1) == (66int, 100int),
            b1 == 0 ==> boost_fraction(b1) == (1int, 1int),
            b1 > 0 ==> boost_fraction(b1) == (b1 + 2, 2int),
            b2 == -6 ==> boost_fraction(b2) == (25int, 100int),
            b2 == -5 ==> boost_fraction(b2) == (28int, 100int),
            b2 == -4 ==> boost_fraction(b2) == (33int, 100int),
            b2 == -3 ==> boost_fraction(b2) == (40int, 100int),
            b2 == -2 ==> boost_fraction(b2) == (50int, 100int),
            b2 == -1 ==> boost_fraction(b2) == (66int, 100int),
            b2 == 0 ==> boost_fraction(b2) == (1int, 1int),
            b2 > 0 ==> boost_fraction(b2) == (b2 + 2, 2int),
    ;
}

/// The lowest stage quarters a stat that is not negative, and the highest
/// quadruples it.
pub proof fn lemma_boost_extremes(stat: int)
    requires
        stat >= 0,
    ensures
        boosted(-6, stat) == stat / 4,
        boosted(6, stat) == 4 * stat,
{
    assert(boost_fraction(-6) == (25int, 100int));
    assert(boost_fraction(6) == (8int, 2int));
    assert((stat * 25) / 100 == stat / 4) by (nonlinear_arith)
        requires
            stat >= 0,
    ;
    assert((stat * 8) / 2 == 4 * stat) by (nonlinear_arith);
}

/// Whether move slot `i` of `p` may be chosen, given what the side used last
/// and whether it is encored.
pub open spec fn move_selectable(p: Pokemon, i: int, last_used_move: LastUsedMove, encored: bool) -> bool {
    &&& !p.moves[i].disabled
    &&& p.moves[i].pp > 0
    &&& match last_used_move {
        LastUsedMove::Move(last) => {
            &&& !(encored && last.idx() != i)
            &&& !((p.moves[last.idx()].id == Choices::BLOODMOON || p.moves[last.idx()].id
                == Choices::GIGATONHAMMER) && last.idx() == i)
        },
        _ => true,
    }
}

/// The move choices among the first `n` slots of `p` that may be chosen, in
/// slot order.
pub open spec fn available_moves(p: Pokemon, last_used_move: LastUsedMove, encored: bool, n: nat) -> Seq<
    MoveChoice,
>
    decreases n,
{
    if n == 0 {
        Seq::empty()
    } else {
        let prev = available_moves(p, last_used_move, encored, (n - 1) as nat);
        if move_selectable(p, n - 1, last_used_move, encored) {
            prev.push(MoveChoice::Move(PokemonMoveIndex::from_int(n - 1)))
        } else {
            prev
        }
    }
}

/// The move choices among the first `n` slots of `p` that hold move `choice`.
pub open spec fn moves_matching(p: Pokemon, choice: Choices, n: nat) -> Seq<MoveChoice>
    decreases n,
{
    if n == 0 {
        Seq::empty()
    } else {
        let prev = moves_matching(p, choice, (n - 1) as nat);
        if p.moves[n - 1].id == choice {
            prev.push(MoveChoice::Move(PokemonMoveIndex::from_int(n - 1)))
        } else {
            prev
        }
    }
}

/// Whether `p` can receive `volatile_status` while `active` are the side's
/// volatile statuses.
pub open spec fn volatile_status_applicable(
    p: Pokemon,
    volatile_status: PokemonVolatileStatus,
    active: Set<PokemonVolatileStatus>,
    first_move: bool,
) -> bool {
    if active.contains(volatile_status) || p.hp == 0 {
        false
    } else {
        match volatile_status {
            PokemonVolatileStatus::LEECHSEED | PokemonVolatileStatus::CONFUSION => !active.contains(
                PokemonVolatileStatus::SUBSTITUTE,
            ),
            PokemonVolatileStatus::SUBSTITUTE => p.hp > div_toward_zero(p.maxhp as int, 4),
            PokemonVolatileStatus::FLINCH => first_move,
            PokemonVolatileStatus::PROTECT => first_move,
            _ => true,
        }
    }
}

proof fn lemma_move_index_injective(a: PokemonMoveIndex, b: PokemonMoveIndex)
    ensures
        a.idx() == b.idx() ==> a == b,
{
}

impl Pokemon {
    pub fn gen2_add_available_moves(
        &self,
        vec: &mut Vec<MoveChoice>,
        last_used_move: &LastUsedMove,
        encored: bool,
    )
        ensures
            final(vec)@ == old(vec)@ + available_moves(*self, *last_used_move, encored, 4),
    {
        let mut i: usize = 0;
        while i < 4
            invariant
                i <= 4,
                vec@ == old(vec)@ + available_moves(*self, *last_used_move, encored, i as nat),
            decreases 4 - i,
        {
            let p = self.moves[i];
            if !p.disabled && p.pp > 0 {
                let idx = PokemonMoveIndex::from_usize(i);
                let mut skip = false;
                match last_used_move {
                    LastUsedMove::Move(last) => {
                        proof {
                            lemma_move_index_injective(*last, idx);
                        }
                        if encored && *last != idx {
                            skip = true;
                        } else {
                            let last_id = self.moves[last.as_usize()].id;
                            if (last_id == Choices::BLOODMOON || last_id == Choices::GIGATONHAMMER)
                                && idx == *last {
                                skip = true;
                            }
                        }
                    },
                    _ => {},
                }
                if !skip {
                    vec.push(MoveChoice::Move(idx));
                }
            }
            proof {
                assert(old(vec)@ + available_moves(*self, *last_used_move, encored, (i + 1) as nat)
                    =~= vec@);
            }
            i = i + 1;
        }
    }

    pub fn gen2_add_move_from_choice(&self, vec: &mut Vec<MoveChoice>, choice: Choices)
        ensures
            final(vec)@ == old(vec)@ + moves_matching(*self, choice, 4),
    {
        let mut i: usize = 0;
        while i < 4
            invariant
                i <= 4,
                vec@ == old(vec)@ + moves_matching(*self, choice, i as nat),
            decreases 4 - i,
        {
            if self.moves[i].id == choice {
                vec.push(MoveChoice::Move(PokemonMoveIndex::from_usize(i)));
            }
            proof {
                assert(old(vec)@ + moves_matching(*self, choice, (i + 1) as nat) =~= vec@);
            }
            i = i + 1;
        }
    }

    pub fn gen2_has_type(&self, pkmn_type: &PokemonType) -> (r: bool)
        ensures
            r == (*pkmn_type == self.types.0 || *pkmn_type == self.types.1),
    {
        *pkmn_type == self.types.0 || *pkmn_type == self.types.1
    }

    /// No held item is permanent in generation 2.
    pub fn gen2_item_is_permanent(&self) -> (r: bool)
        ensures
            r == false,
    {
        false
    }

    pub fn gen2_item_can_be_removed(&self) -> (r: bool)
        ensures
            r == true,
    {
        !self.gen2_item_is_permanent()
    }

    /// Every pokemon but a flying one touches the ground.
    pub fn gen2_is_grounded(&self) -> (r: bool)
        ensures
            r == !(self.types.0 == PokemonType::FLYING || self.types.1 == PokemonType::FLYING),
    {
        if self.gen2_has_type(&PokemonType::FLYING) {
            return false;
        }
        true
    }

    pub fn gen2_volatile_status_can_be_applied(
        &self,
        volatile_status: &PokemonVolatileStatus,
        active_volatiles: &VolatileStatusBitset,
        first_move: bool,
    ) -> (r: bool)
        ensures
            r == volatile_status_applicable(*self, *volatile_status, active_volatiles@, first_move),
    {
        if active_volatiles.contains(volatile_status) || self.hp == 0 {
            return false;
        }
        match volatile_status {
            PokemonVolatileStatus::LEECHSEED | PokemonVolatileStatus::CONFUSION => {
                if active_volatiles.contains(&PokemonVolatileStatus::SUBSTITUTE) {
                    return false;
                }
                true
            },
            PokemonVolatileStatus::SUBSTITUTE => self.hp > self.maxhp / 4,
            PokemonVolatileStatus::FLINCH => {
                if !first_move {
                    return false;
                }
                true
            },
            PokemonVolatileStatus::PROTECT => first_move,
            _ => true,
        }
    }

    /// Behind a substitute no stat can be lowered by the opponent.
    pub fn gen2_immune_to_stats_lowered_by_opponent(
        &self,
        _stat: &PokemonBoostableStat,
        volatiles: &VolatileStatusBitset,
    ) -> (r: bool)
        ensures
            r == volatiles@.contains(PokemonVolatileStatus::SUBSTITUTE),
    {
        if volatiles.contains(&PokemonVolatileStatus::SUBSTITUTE) {
            return true;
        }
        false
    }
}

/// The boost stage `side` has on `stat`.
pub open spec fn boost_of(side: Side, stat: PokemonBoostableStat) -> i8 {
    match stat {
        PokemonBoostableStat::Attack => side.attack_boost,
        PokemonBoostableStat::Defense => side.defense_boost,
        PokemonBoostableStat::SpecialAttack => side.special_attack_boost,
        PokemonBoostableStat::SpecialDefense => side.special_defense_boost,
        PokemonBoostableStat::Speed => side.speed_boost,
        PokemonBoostableStat::Evasion => side.evasion_boost,
        PokemonBoostableStat::Accuracy => side.accuracy_boost,
    }
}

/// The unboosted value of `stat` on `p`; evasion and accuracy have none.
pub open spec fn base_stat(p: Pokemon, stat: PokemonBoostableStat) -> Option<i16> {
    match stat {
        PokemonBoostableStat::Attack => Some(p.attack),
        PokemonBoostableStat::Defense => Some(p.defense),
        PokemonBoostableStat::SpecialAttack => Some(p.special_attack),
        PokemonBoostableStat::SpecialDefense => Some(p.special_defense),
        PokemonBoostableStat::Speed => Some(p.speed),
        _ => None,
    }
}

/// Switch choices to the pokemon among the first `n` slots that are alive
/// and not on the field, in slot order.
pub open spec fn switch_options(side: Side, n: nat) -> Seq<MoveChoice>
    decreases n,
{
    if n == 0 {
        Seq::empty()
    } else {
        let prev = switch_options(side, (n - 1) as nat);
        if side.pokemon[n - 1].hp > 0 && n - 1 != side.active_index.idx() {
            prev.push(MoveChoice::Switch(PokemonIndex::from_int(n - 1)))
        } else {
            prev
        }
    }
}

/// `options` with no choice replaced by the single choice to do nothing.
pub open spec fn or_no_move(options: Seq<MoveChoice>) -> Seq<MoveChoice> {
    if options.len() == 0 {
        seq![MoveChoice::NoMove]
    } else {
        options
    }
}

/// `options` followed by the side's switches, or doing nothing when both are
/// empty.
pub open spec fn with_switches(side: Side, options: Seq<MoveChoice>) -> Seq<MoveChoice> {
    or_no_move(options + switch_options(side, 6))
}

/// A side that is locked into a move or partially trapped cannot switch.
pub open spec fn side_trapped(side: Side) -> bool {
    side.volatile_statuses@.contains(PokemonVolatileStatus::LOCKEDMOVE)
        || side.volatile_statuses@.contains(PokemonVolatileStatus::PARTIALLYTRAPPED)
}

impl Side {
    pub fn gen2_get_boost_from_boost_enum(&self, boost_enum: &PokemonBoostableStat) -> (r: i8)
        ensures
            r == boost_of(*self, *boost_enum),
    {
        match boost_enum {
            PokemonBoostableStat::Attack => self.attack_boost,
            PokemonBoostableStat::Defense => self.defense_boost,
            PokemonBoostableStat::SpecialAttack => self.special_attack_boost,
            PokemonBoostableStat::SpecialDefense => self.special_defense_boost,
            PokemonBoostableStat::Speed => self.speed_boost,
            PokemonBoostableStat::Evasion => self.evasion_boost,
            PokemonBoostableStat::Accuracy => self.accuracy_boost,
        }
    }

    /// The active pokemon's `stat` under the side's boost on it.
    pub fn gen2_calculate_boosted_stat(&self, stat: PokemonBoostableStat) -> (r: i16)
        requires
            base_stat(self.active(), stat) is Some,
            boost_applicable(
                boost_of(*self, stat) as int,
                base_stat(self.active(), stat).unwrap() as int,
            ),
        ensures
            r == boosted(boost_of(*self, stat) as int, base_stat(self.active(), stat).unwrap() as int),
    {
        let active = self.get_active_immutable();
        match stat {
            PokemonBoostableStat::Attack => {
                let boost = self.attack_boost;
                multiply_boost(boost, active.attack)
            },
            PokemonBoostableStat::Defense => {
                let boost = self.defense_boost;
                multiply_boost(boost, active.defense)
            },
            PokemonBoostableStat::SpecialAttack => {
                let boost = self.special_attack_boost;
                multiply_boost(boost, active.special_attack)
            },
            PokemonBoostableStat::SpecialDefense => {
                let boost = self.special_defense_boost;
                multiply_boost(boost, active.special_defense)
            },
            _ => {
                let boost = self.speed_boost;
                multiply_boost(boost, active.speed)
            },
        }
    }

    pub fn gen2_has_alive_non_rested_sleeping_pkmn(&self) -> (r: bool)
        ensures
            r == exists|i: int|
                0 <= i < 6 && #[trigger] self.pokemon[i].status == PokemonStatus::SLEEP
                    && self.pokemon[i].hp > 0 && self.pokemon[i].rest_turns == 0,
    {
        let mut i: usize = 0;
        while i < 6
            invariant
                i <= 6,
                forall|j: int|
                    0 <= j < i ==> !(#[trigger] self.pokemon[j].status == PokemonStatus::SLEEP
                        && self.pokemon[j].hp > 0 && self.pokemon[j].rest_turns == 0),
            decreases 6 - i,
        {
            let p = &self.pokemon[i];
            if p.status == PokemonStatus::SLEEP && p.hp > 0 && p.rest_turns == 0 {
                return true;
            }
            i = i + 1;
        }
        false
    }

    pub fn gen2_has_alive_frozen_pokemon(&self) -> (r: bool)
        ensures
            r == exists|i: int|
                0 <= i < 6 && #[trigger] self.pokemon[i].status == PokemonStatus::FREEZE
                    && self.pokemon[i].hp > 0,
    {
        let mut i: usize = 0;
        while i < 6
            invariant
                i <= 6,
                forall|j: int|
                    0 <= j < i ==> !(#[trigger] self.pokemon[j].status == PokemonStatus::FREEZE
                        && self.pokemon[j].hp > 0),
            decreases 6 - i,
        {
            let p = &self.pokemon[i];
            if p.status == PokemonStatus::FREEZE && p.hp > 0 {
                return true;
            }
            i = i + 1;
        }
        false
    }

    /// Appends a switch to every living pokemon off the field; when `vec`
    /// is still empty after that, appends the choice to do nothing.
    pub fn gen2_add_switches(&self, vec: &mut Vec<MoveChoice>)
        ensures
            final(vec)@ == with_switches(*self, old(vec)@),
    {
        let active = self.active_index.as_usize();
        let mut i: usize = 0;
        while i < 6
            invariant
                i <= 6,
                active == self.active_index.idx(),
                vec@ == old(vec)@ + switch_options(*self, i as nat),
            decreases 6 - i,
        {
            if self.pokemon[i].hp > 0 && i != active {
                vec.push(MoveChoice::Switch(PokemonIndex::from_usize(i)));
            }
            proof {
                assert(old(vec)@ + switch_options(*self, (i + 1) as nat) =~= vec@);
            }
            i = i + 1;
        }
        if vec.len() == 0 {
            vec.push(MoveChoice::NoMove);
        }
    }

    pub fn gen2_trapped(&self, _opponent_active: &Pokemon) -> (r: bool)
        ensures
            r == side_trapped(*self),
    {
        if self.volatile_statuses.contains(&PokemonVolatileStatus::LOCKEDMOVE) {
            return true;
        } else if self.volatile_statuses.contains(&PokemonVolatileStatus::PARTIALLYTRAPPED) {
            return true;
        }
        false
    }
}

/// Whether the side is encored into its last move.
pub open spec fn side_encored(side: Side) -> bool {
    side.volatile_statuses@.contains(PokemonVolatileStatus::ENCORE)
}

/// The move choices the side's active pokemon may make.
pub open spec fn side_available_moves(side: Side) -> Seq<MoveChoice> {
    available_moves(side.active(), side.last_used_move, side_encored(side), 4)
}

/// The choices of a side in an ordinary turn: nothing while it must
/// recharge, else its moves and, unless trapped, its switches.
pub open spec fn regular_options(side: Side) -> Seq<MoveChoice> {
    if side.volatile_statuses@.contains(PokemonVolatileStatus::MUSTRECHARGE) {
        seq![MoveChoice::NoMove]
    } else {
        let moves = side_available_moves(side);
        or_no_move(
            if side_trapped(side) {
                moves
            } else {
                with_switches(side, moves)
            },
        )
    }
}

/// The choices of a side that waits while the other side switches out
/// mid-turn: the move it saved, if any, else nothing.
pub open spec fn saved_move_options(side: Side) -> Seq<MoveChoice> {
    if side.switch_out_move_second_saved_move == Choices::NONE {
        seq![MoveChoice::NoMove]
    } else {
        moves_matching(side.active(), side.switch_out_move_second_saved_move, 4)
    }
}

/// The choices of both sides for the next decision.
pub open spec fn all_options(state: State) -> (Seq<MoveChoice>, Seq<MoveChoice>) {
    let s1 = state.side_one;
    let s2 = state.side_two;
    if s1.force_switch {
        (with_switches(s1, Seq::empty()), saved_move_options(s2))
    } else if s2.force_switch {
        (saved_move_options(s1), with_switches(s2, Seq::empty()))
    } else if s1.active().hp <= 0 && s2.active().hp <= 0 {
        (with_switches(s1, Seq::empty()), with_switches(s2, Seq::empty()))
    } else if s1.active().hp <= 0 {
        (with_switches(s1, Seq::empty()), seq![MoveChoice::NoMove])
    } else if s2.active().hp <= 0 {
        (seq![MoveChoice::NoMove], with_switches(s2, Seq::empty()))
    } else {
        (regular_options(s1), regular_options(s2))
    }
}

/// Switch choices to every living pokemon among the first `n` slots, the
/// active one included, in slot order.
pub open spec fn team_preview_options(side: Side, n: nat) -> Seq<MoveChoice>
    decreases n,
{
    if n == 0 {
        Seq::empty()
    } else {
        let prev = team_preview_options(side, (n - 1) as nat);
        if side.pokemon[n - 1].hp > 0 {
            prev.push(MoveChoice::Switch(PokemonIndex::from_int(n - 1)))
        } else {
            prev
        }
    }
}

/// Whether a choice is still open to a side that is forced to stay in.
pub open spec fn open_when_trapped(choice: MoveChoice) -> bool {
    choice is Move || choice is NoMove
}

/// `options` without the choices a side forced to stay in cannot make, in
/// the same order.
pub open spec fn without_switches(options: Seq<MoveChoice>) -> Seq<MoveChoice>
    decreases options.len(),
{
    if options.len() == 0 {
        Seq::empty()
    } else {
        let prev = without_switches(options.drop_last());
        if open_when_trapped(options.last()) {
            prev.push(options.last())
        } else {
            prev
        }
    }
}

/// The choices of a side at the root of a search, from its ordinary choices.
pub open spec fn root_side_options(side: Side, options: Seq<MoveChoice>) -> Seq<MoveChoice> {
    let kept = if side.force_trapped {
        without_switches(options)
    } else {
        options
    };
    or_no_move(
        if side.slow_uturn_move {
            side_available_moves(side)
        } else {
            kept
        },
    )
}

/// The choices of both sides at the root of a search.
pub open spec fn root_options(state: State) -> (Seq<MoveChoice>, Seq<MoveChoice>) {
    if state.team_preview {
        (team_preview_options(state.side_one, 6), team_preview_options(state.side_two, 6))
    } else {
        let (o1, o2) = all_options(state);
        (root_side_options(state.side_one, o1), root_side_options(state.side_two, o2))
    }
}

fn add_team_preview_options(side: &Side, vec: &mut Vec<MoveChoice>)
    ensures
        final(vec)@ == old(vec)@ + team_preview_options(*side, 6),
{
    let mut i: usize = 0;
    while i < 6
        invariant
            i <= 6,
            vec@ == old(vec)@ + team_preview_options(*side, i as nat),
        decreases 6 - i,
    {
        if side.pokemon[i].hp > 0 {
            vec.push(MoveChoice::Switch(PokemonIndex::from_usize(i)));
        }
        proof {
            assert(old(vec)@ + team_preview_options(*side, (i + 1) as nat) =~= vec@);
        }
        i = i + 1;
    }
}

fn retain_choices_open_when_trapped(vec: &mut Vec<MoveChoice>)
    ensures
        final(vec)@ == without_switches(old(vec)@),
{
    let mut kept: Vec<MoveChoice> = Vec::new();
    let mut i: usize = 0;
    while i < vec.len()
        invariant
            i <= vec.len(),
            vec@ == old(vec)@,
            kept@ == without_switches(vec@.take(i as int)),
        decreases vec.len() - i,
    {
        let c = vec[i];
        proof {
            assert(vec@.take(i + 1).drop_last() =~= vec@.take(i as int));
        }
        match c {
            MoveChoice::Move(_) => kept.push(c),
            MoveChoice::NoMove => kept.push(c),
            _ => {},
        }
        i = i + 1;
    }
    proof {
        assert(vec@.take(vec.len() as int) =~= vec@);
    }
    *vec = kept;
}

impl State {
    pub fn gen2_root_get_all_options(&self) -> (r: (Vec<MoveChoice>, Vec<MoveChoice>))
        ensures
            r.0@ == root_options(*self).0,
            r.1@ == root_options(*self).1,
    {
        if self.team_preview {
            let mut s1_options: Vec<MoveChoice> = Vec::new();
            let mut s2_options: Vec<MoveChoice> = Vec::new();
            add_team_preview_options(&self.side_one, &mut s1_options);
            add_team_preview_options(&self.side_two, &mut s2_options);
            return (s1_options, s2_options);
        }
        let (mut s1_options, mut s2_options) = self.gen2_get_all_options();

        if self.side_one.force_trapped {
            retain_choices_open_when_trapped(&mut s1_options);
        }
        if self.side_one.slow_uturn_move {
            s1_options = Vec::new();
            let encored = self.side_one.volatile_statuses.contains(&PokemonVolatileStatus::ENCORE);
            self.side_one.get_active_immutable().gen2_add_available_moves(
                &mut s1_options,
                &self.side_one.last_used_move,
                encored,
            );
        }
        if self.side_two.force_trapped {
            retain_choices_open_when_trapped(&mut s2_options);
        }
        if self.side_two.slow_uturn_move {
            s2_options = Vec::new();
            let encored = self.side_two.volatile_statuses.contains(&PokemonVolatileStatus::ENCORE);
            self.side_two.get_active_immutable().gen2_add_available_moves(
                &mut s2_options,
                &self.side_two.last_used_move,
                encored,
            );
        }
        if s1_options.len() == 0 {
            s1_options.push(MoveChoice::NoMove);
        }
        if s2_options.len() == 0 {
            s2_options.push(MoveChoice::NoMove);
        }
        proof {
            assert(s1_options@ =~= root_options(*self).0);
            assert(s2_options@ =~= root_options(*self).1);
        }
        (s1_options, s2_options)
    }

    pub fn gen2_get_all_options(&self) -> (r: (Vec<MoveChoice>, Vec<MoveChoice>))
        ensures
            r.0@ == all_options(*self).0,
            r.1@ == all_options(*self).1,
    {
        let mut side_one_options: Vec<MoveChoice> = Vec::new();
        let mut side_two_options: Vec<MoveChoice> = Vec::new();

        let side_one_active = self.side_one.get_active_immutable();
        let side_two_active = self.side_two.get_active_immutable();

        if self.side_one.force_switch {
            self.side_one.gen2_add_switches(&mut side_one_options);
            if self.side_two.switch_out_move_second_saved_move == Choices::NONE {
                side_two_options.push(MoveChoice::NoMove);
            } else {
                self.side_two.get_active_immutable().gen2_add_move_from_choice(
                    &mut side_two_options,
                    self.side_two.switch_out_move_second_saved_move,
                );
            }
            proof {
                assert(side_one_options@ =~= all_options(*self).0);
                assert(side_two_options@ =~= all_options(*self).1);
            }
            return (side_one_options, side_two_options);
        }
        if self.side_two.force_switch {
            self.side_two.gen2_add_switches(&mut side_two_options);
            if self.side_one.switch_out_move_second_saved_move == Choices::NONE {
                side_one_options.push(MoveChoice::NoMove);
            } else {
                self.side_one.get_active_immutable().gen2_add_move_from_choice(
                    &mut side_one_options,
                    self.side_one.switch_out_move_second_saved_move,
                );
            }
            proof {
                assert(side_one_options@ =~= all_options(*self).0);
                assert(side_two_options@ =~= all_options(*self).1);
            }
            return (side_one_options, side_two_options);
        }

        let side_one_force_switch = self.side_one.get_active_immutable().hp <= 0;
        let side_two_force_switch = self.side_two.get_active_immutable().hp <= 0;

        if side_one_force_switch && side_two_force_switch {
            self.side_one.gen2_add_switches(&mut side_one_options);
            self.side_two.gen2_add_switches(&mut side_two_options);
            proof {
                assert(side_one_options@ =~= all_options(*self).0);
                assert(side_two_options@ =~= all_options(*self).1);
            }
            return (side_one_options, side_two_options);
        }
        if side_one_force_switch {
            self.side_one.gen2_add_switches(&mut side_one_options);
            side_two_options.push(MoveChoice::NoMove);
            proof {
                assert(side_one_options@ =~= all_options(*self).0);
                assert(side_two_options@ =~= all_options(*self).1);
            }
            return (side_one_options, side_two_options);
        }
        if side_two_force_switch {
            side_one_options.push(MoveChoice::NoMove);
            self.side_two.gen2_add_switches(&mut side_two_options);
            proof {
                assert(side_one_options@ =~= all_options(*self).0);
                assert(side_two_options@ =~= all_options(*self).1);
            }
            return (side_one_options, side_two_options);
        }

        if self.side_one.volatile_statuses.contains(&PokemonVolatileStatus::MUSTRECHARGE) {
            side_one_options.push(MoveChoice::NoMove);
        } else {
            let encored = self.side_one.volatile_statuses.contains(&PokemonVolatileStatus::ENCORE);
            self.side_one.get_active_immutable().gen2_add_available_moves(
                &mut side_one_options,
                &self.side_one.last_used_move,
                encored,
            );
            if !self.side_one.gen2_trapped(side_two_active) {
                self.side_one.gen2_add_switches(&mut side_one_options);
            }
        }

        if self.side_two.volatile_statuses.contains(&PokemonVolatileStatus::MUSTRECHARGE) {
            side_two_options.push(MoveChoice::NoMove);
        } else {
            let encored = self.side_two.volatile_statuses.contains(&PokemonVolatileStatus::ENCORE);
            self.side_two.get_active_immutable().gen2_add_available_moves(
                &mut side_two_options,
                &self.side_two.last_used_move,
                encored,
            );
            if !self.side_two.gen2_trapped(side_one_active) {
                self.side_two.gen2_add_switches(&mut side_two_options);
            }
        }

        if side_one_options.len() == 0 {
            side_one_options.push(MoveChoice::NoMove);
        }
        if side_two_options.len() == 0 {
            side_two_options.push(MoveChoice::NoMove);
        }
        proof {
            assert(side_one_options@ =~= all_options(*self).0);
            assert(side_two_options@ =~= all_options(*self).1);
        }
        (side_one_options, side_two_options)
    }
}

/// `new` is `old` with at most the side that `side_ref` names changed.
pub open spec fn only_side_changed(old: State, new: State, side_ref: SideReference) -> bool {
    match side_ref {
        SideReference::SideOne => new == State { side_one: new.side_one, ..old },
        SideReference::SideTwo => new == State { side_two: new.side_two, ..old },
    }
}

/// `new` is `old` with its toxic counter cleared (when positive) and its
/// badly poisoned active pokemon made merely poisoned.
pub open spec fn toxic_reset(old: Side, new: Side) -> bool {
    let count = old.side_conditions.toxic_count;
    &&& new == Side { pokemon: new.pokemon, side_conditions: new.side_conditions, ..old }
    &&& new.side_conditions == SideConditions {
        toxic_count: if count > 0 {
            0
        } else {
            count
        },
        ..old.side_conditions
    }
    &&& new.pokemon@ == if old.active().status == PokemonStatus::TOXIC {
        old.pokemon@.update(
            old.active_index.idx(),
            Pokemon { status: PokemonStatus::POISON, ..old.active() },
        )
    } else {
        old.pokemon@
    }
}

/// The instructions that record a toxic reset of `side`.
pub open spec fn toxic_reset_instructions(side: Side, side_ref: SideReference) -> Seq<Instruction> {
    let count = side.side_conditions.toxic_count;
    (if count > 0 {
        seq![
            Instruction::ChangeSideCondition(
                ChangeSideConditionInstruction {
                    side_ref: side_ref,
                    side_condition: PokemonSideCondition::ToxicCount,
                    amount: (-count) as i8,
                },
            ),
        ]
    } else {
        Seq::empty()
    }) + (if side.active().status == PokemonStatus::TOXIC {
        seq![
            Instruction::ChangeStatus(
                ChangeStatusInstruction {
                    side_ref: side_ref,
                    pokemon_index: side.active_index,
                    old_status: PokemonStatus::TOXIC,
                    new_status: PokemonStatus::POISON,
                },
            ),
        ]
    } else {
        Seq::empty()
    })
}

/// Whether `v` stays on a pokemon that switches out: only a substitute or
/// leech seed, and only when passed on by baton pass.
pub open spec fn kept_on_switch(v: PokemonVolatileStatus, baton_passing: bool) -> bool {
    (v == PokemonVolatileStatus::SUBSTITUTE || v == PokemonVolatileStatus::LEECHSEED) && baton_passing
}

/// The statuses of `statuses` with bit below `n` that a switch removes, in
/// bit order.
pub open spec fn removed_on_switch(
    statuses: Set<PokemonVolatileStatus>,
    baton_passing: bool,
    n: nat,
) -> Seq<PokemonVolatileStatus>
    decreases n,
{
    if n == 0 {
        Seq::empty()
    } else {
        let prev = removed_on_switch(statuses, baton_passing, (n - 1) as nat);
        match PokemonVolatileStatus::from_bit(n - 1) {
            Some(v) => if statuses.contains(v) && !kept_on_switch(v, baton_passing) {
                prev.push(v)
            } else {
                prev
            },
            None => prev,
        }
    }
}

/// The statuses of `statuses` that stay on a switch.
pub open spec fn kept_statuses(statuses: Set<PokemonVolatileStatus>, baton_passing: bool) -> Set<
    PokemonVolatileStatus,
> {
    statuses.filter(|v: PokemonVolatileStatus| kept_on_switch(v, baton_passing))
}

/// `new` is `old` with at most its volatile statuses changed.
pub open spec fn only_volatile_statuses_changed(old: Side, new: Side) -> bool {
    new == Side { volatile_statuses: new.volatile_statuses, ..old }
}

/// `state` with damage-dealt tracking on when some pokemon knows a move that
/// needs it.
pub open spec fn with_damage_dealt_flag(state: State) -> State {
    State {
        use_damage_dealt: state.use_damage_dealt || state_has_any_move(state, damage_dealt_moves()),
        ..state
    }
}

/// `state` with last-used-move tracking on when some pokemon knows a move
/// that needs it.
pub open spec fn with_last_used_move_flag(state: State) -> State {
    State {
        use_last_used_move: state.use_last_used_move || state_has_any_move(
            state,
            last_used_move_moves(),
        ),
        ..state
    }
}

/// One removal instruction per status, in order.
pub open spec fn removal_instructions(
    statuses: Seq<PokemonVolatileStatus>,
    side_ref: SideReference,
) -> Seq<Instruction> {
    statuses.map_values(
        |v: PokemonVolatileStatus|
            Instruction::RemoveVolatileStatus(
                RemoveVolatileStatusInstruction { side_ref: side_ref, volatile_status: v },
            ),
    )
}

/// The instructions that record the removal of a switching side's volatile
/// statuses.
pub open spec fn switch_out_instructions(
    side: Side,
    side_ref: SideReference,
    baton_passing: bool,
) -> Seq<Instruction> {
    removal_instructions(
        removed_on_switch(side.volatile_statuses@, baton_passing, VOLATILE_STATUS_COUNT as nat),
        side_ref,
    )
}

/// Whether some move slot of some pokemon of `side` holds one of `moves`.
pub open spec fn side_has_any_move(side: Side, moves: Seq<Choices>) -> bool {
    exists|i: int, j: int| 0 <= i < 6 && 0 <= j < 4 && moves.contains(#[trigger] side.pokemon[i].moves[j].id)
}

/// Whether some pokemon of either side knows one of `moves`.
pub open spec fn state_has_any_move(state: State, moves: Seq<Choices>) -> bool {
    side_has_any_move(state.side_one, moves) || side_has_any_move(state.side_two, moves)
}

/// The moves whose effect depends on the damage dealt earlier in the turn.
pub open spec fn damage_dealt_moves() -> Seq<Choices> {
    seq![Choices::COUNTER, Choices::MIRRORCOAT, Choices::METALBURST, Choices::COMEUPPANCE, Choices::FOCUSPUNCH]
}

/// The moves whose effect depends on the move used last.
pub open spec fn last_used_move_moves() -> Seq<Choices> {
    seq![Choices::ENCORE, Choices::FAKEOUT, Choices::FIRSTIMPRESSION, Choices::BLOODMOON, Choices::GIGATONHAMMER]
}

fn slice_contains(moves: &[Choices], id: Choices) -> (r: bool)
    ensures
        r == moves@.contains(id),
{
    let mut k: usize = 0;
    while k < moves.len()
        invariant
            k <= moves@.len(),
            forall|m: int| 0 <= m < k ==> moves@[m] != id,
        decreases moves@.len() - k,
    {
        if moves[k] == id {
            return true;
        }
        k = k + 1;
    }
    false
}

impl Side {
    fn gen2_reset_toxic_on(&mut self, side_ref: SideReference, vec_to_add_to: &mut Vec<Instruction>)
        ensures
            toxic_reset(*old(self), *final(self)),
            final(vec_to_add_to)@ == old(vec_to_add_to)@ + toxic_reset_instructions(*old(self), side_ref),
    {
        let count = self.side_conditions.toxic_count;
        if count > 0 {
            let amount: i8 = -1 * count;
            vec_to_add_to.push(
                Instruction::ChangeSideCondition(
                    ChangeSideConditionInstruction {
                        side_ref: side_ref,
                        side_condition: PokemonSideCondition::ToxicCount,
                        amount: amount,
                    },
                ),
            );
            self.side_conditions.toxic_count = 0;
        }
        let i = self.active_index.as_usize();
        if self.pokemon[i].status == PokemonStatus::TOXIC {
            let mut active = self.pokemon[i];
            active.status = PokemonStatus::POISON;
            self.pokemon[i] = active;
            vec_to_add_to.push(
                Instruction::ChangeStatus(
                    ChangeStatusInstruction {
                        side_ref: side_ref,
                        pokemon_index: self.active_index,
                        old_status: PokemonStatus::TOXIC,
                        new_status: PokemonStatus::POISON,
                    },
                ),
            );
        }
        proof {
            assert(vec_to_add_to@ =~= old(vec_to_add_to)@ + toxic_reset_instructions(*old(self), side_ref));
        }
    }

    fn gen2_remove_volatile_statuses_on_switch_on(
        &mut self,
        side_ref: SideReference,
        vec_to_add_to: &mut Vec<Instruction>,
        baton_passing: bool,
    )
        ensures
            only_volatile_statuses_changed(*old(self), *final(self)),
            final(self).volatile_statuses == without_statuses(
                old(self).volatile_statuses,
                removed_on_switch(old(self).volatile_statuses@, baton_passing, VOLATILE_STATUS_COUNT as nat),
            ),
            final(self).volatile_statuses@ == kept_statuses(old(self).volatile_statuses@, baton_passing),
            final(vec_to_add_to)@ == old(vec_to_add_to)@ + switch_out_instructions(*old(self), side_ref, baton_passing),
    {
        let ghost before = old(self).volatile_statuses@;
        let mut i: u8 = 0;
        while i < VOLATILE_STATUS_COUNT
            invariant
                i <= VOLATILE_STATUS_COUNT,
                before == old(self).volatile_statuses@,
                only_volatile_statuses_changed(*old(self), *self),
                self.volatile_statuses == without_statuses(
                    old(self).volatile_statuses,
                    removed_on_switch(before, baton_passing, i as nat),
                ),
                forall|v: PokemonVolatileStatus|
                    #[trigger] self.volatile_statuses@.contains(v) == (before.contains(v) && (v.bit() >= i
                        || kept_on_switch(v, baton_passing))),
                vec_to_add_to@ == old(vec_to_add_to)@ + removal_instructions(
                    removed_on_switch(before, baton_passing, i as nat),
                    side_ref,
                ),
            decreases VOLATILE_STATUS_COUNT - i,
        {
            proof {
                lemma_from_bit(i as int);
            }
            let ghost prev_vec = vec_to_add_to@;
            let ghost prev_set = self.volatile_statuses@;
            match PokemonVolatileStatus::from_bit_index(i) {
                Some(v) => {
                    if self.volatile_statuses.contains(&v) {
                        let should_retain = match v {
                            PokemonVolatileStatus::SUBSTITUTE | PokemonVolatileStatus::LEECHSEED => baton_passing,
                            _ => false,
                        };
                        if !should_retain {
                            vec_to_add_to.push(
                                Instruction::RemoveVolatileStatus(
                                    RemoveVolatileStatusInstruction { side_ref: side_ref, volatile_status: v },
                                ),
                            );
                            self.volatile_statuses.remove(v);
                        }
                    }
                    proof {
                        let prev_removed = removed_on_switch(before, baton_passing, i as nat);
                        if before.contains(v) && !kept_on_switch(v, baton_passing) {
                            assert(removed_on_switch(before, baton_passing, (i + 1) as nat).drop_last() =~= prev_removed);
                        } else {
                            assert(removed_on_switch(before, baton_passing, (i + 1) as nat) == prev_removed);
                        }
                        assert(removal_instructions(removed_on_switch(before, baton_passing, (i + 1) as nat), side_ref)
                            =~= if before.contains(v) && !kept_on_switch(v, baton_passing) {
                                removal_instructions(removed_on_switch(before, baton_passing, i as nat), side_ref).push(
                                    Instruction::RemoveVolatileStatus(
                                        RemoveVolatileStatusInstruction { side_ref: side_ref, volatile_status: v },
                                    ))
                            } else {
                                removal_instructions(removed_on_switch(before, baton_passing, i as nat), side_ref)
                            });
                        assert(vec_to_add_to@ =~= old(vec_to_add_to)@ + removal_instructions(
                            removed_on_switch(before, baton_passing, (i + 1) as nat), side_ref));
                        assert forall|w: PokemonVolatileStatus|
                            #[trigger] self.volatile_statuses@.contains(w) == (before.contains(w) && (w.bit() >= i + 1
                                || kept_on_switch(w, baton_passing))) by {
                            crate::volatile::lemma_bit_injective(v, w);
                        }
                    }
                },
                None => {},
            }
            i = i + 1;
        }
        proof {
            assert forall|v: PokemonVolatileStatus| #[trigger] self.volatile_statuses@.contains(v) == before.filter(
                |v: PokemonVolatileStatus| kept_on_switch(v, baton_passing)).contains(v) by {
                crate::volatile::lemma_bit_round_trip(v);
            }
            assert(self.volatile_statuses@ =~= before.filter(|v: PokemonVolatileStatus| kept_on_switch(v, baton_passing)));
        }
    }

    fn gen2_side_contains_any_move(&self, moves: &[Choices]) -> (r: bool)
        ensures
            r == side_has_any_move(*self, moves@),
    {
        let mut i: usize = 0;
        while i < 6
            invariant
                i <= 6,
                forall|a: int, b: int| 0 <= a < i && 0 <= b < 4 ==> !moves@.contains(#[trigger] self.pokemon[a].moves[b].id),
            decreases 6 - i,
        {
            let mut j: usize = 0;
            while j < 4
                invariant
                    i < 6,
                    j <= 4,
                    forall|a: int, b: int| 0 <= a < i && 0 <= b < 4 ==> !moves@.contains(#[trigger] self.pokemon[a].moves[b].id),
                    forall|b: int| 0 <= b < j ==> !moves@.contains(#[trigger] self.pokemon[i as int].moves[b].id),
                decreases 4 - j,
            {
                if slice_contains(moves, self.pokemon[i].moves[j].id) {
                    return true;
                }
                j = j + 1;
            }
            i = i + 1;
        }
        false
    }
}

impl State {
    pub fn gen2_reset_toxic(&mut self, side_ref: &SideReference, vec_to_add_to: &mut Vec<Instruction>)
        ensures
            only_side_changed(*old(self), *final(self), *side_ref),
            toxic_reset(old(self).side(*side_ref), final(self).side(*side_ref)),
            final(vec_to_add_to)@ == old(vec_to_add_to)@ + toxic_reset_instructions(
                old(self).side(*side_ref),
                *side_ref,
            ),
    {
        match side_ref {
            SideReference::SideOne => self.side_one.gen2_reset_toxic_on(*side_ref, vec_to_add_to),
            SideReference::SideTwo => self.side_two.gen2_reset_toxic_on(*side_ref, vec_to_add_to),
        }
    }

    pub fn gen2_remove_volatile_statuses_on_switch(
        &mut self,
        side_ref: &SideReference,
        vec_to_add_to: &mut Vec<Instruction>,
        baton_passing: bool,
    )
        ensures
            only_side_changed(*old(self), *final(self), *side_ref),
            only_volatile_statuses_changed(old(self).side(*side_ref), final(self).side(*side_ref)),
            final(self).side(*side_ref).volatile_statuses == without_statuses(
                old(self).side(*side_ref).volatile_statuses,
                removed_on_switch(
                    old(self).side(*side_ref).volatile_statuses@,
                    baton_passing,
                    VOLATILE_STATUS_COUNT as nat,
                ),
            ),
            final(self).side(*side_ref).volatile_statuses@ == kept_statuses(
                old(self).side(*side_ref).volatile_statuses@,
                baton_passing,
            ),
            final(vec_to_add_to)@ == old(vec_to_add_to)@ + switch_out_instructions(
                old(self).side(*side_ref),
                *side_ref,
                baton_passing,
            ),
    {
        match side_ref {
            SideReference::SideOne => self.side_one.gen2_remove_volatile_statuses_on_switch_on(
                *side_ref,
                vec_to_add_to,
                baton_passing,
            ),
            SideReference::SideTwo => self.side_two.gen2_remove_volatile_statuses_on_switch_on(
                *side_ref,
                vec_to_add_to,
                baton_passing,
            ),
        }
    }

    pub fn gen2_terrain_is_active(&self, terrain: &Terrain) -> (r: bool)
        ensures
            r == (self.terrain.terrain_type == *terrain && self.terrain.turns_remaining > 0),
    {
        self.terrain.terrain_type == *terrain && self.terrain.turns_remaining > 0
    }

    /// In generation 2 a weather is active whenever it is set.
    pub fn gen2_weather_is_active(&self, weather: &Weather) -> (r: bool)
        ensures
            r == (self.weather.weather_type == *weather),
    {
        self.weather.weather_type == *weather
    }

    fn gen2_state_contains_any_move(&self, moves: &[Choices]) -> (r: bool)
        ensures
            r == state_has_any_move(*self, moves@),
    {
        self.side_one.gen2_side_contains_any_move(moves) || self.side_two.gen2_side_contains_any_move(moves)
    }

    /// Turns on damage-dealt tracking when some pokemon knows a move that
    /// needs it.
    pub fn gen2_set_damage_dealt_flag(&mut self)
        ensures
            *final(self) == with_damage_dealt_flag(*old(self)),
    {
        let moves = [Choices::COUNTER, Choices::MIRRORCOAT, Choices::METALBURST, Choices::COMEUPPANCE, Choices::FOCUSPUNCH];
        proof {
            assert(moves@ =~= damage_dealt_moves());
        }
        if self.gen2_state_contains_any_move(moves.as_slice()) {
            self.use_damage_dealt = true
        }
    }

    /// Turns on last-used-move tracking when some pokemon knows a move that
    /// needs it.
    pub fn gen2_set_last_used_move_flag(&mut self)
        ensures
            *final(self) == with_last_used_move_flag(*old(self)),
    {
        let moves = [Choices::ENCORE, Choices::FAKEOUT, Choices::FIRSTIMPRESSION, Choices::BLOODMOON, Choices::GIGATONHAMMER];
        proof {
            assert(moves@ =~= last_used_move_moves());
        }
        if self.gen2_state_contains_any_move(moves.as_slice()) {
            self.use_last_used_move = true
        }
    }

    /// Turns on every optional mechanic that some move in the state needs.
    pub fn gen2_set_conditional_mechanics(&mut self)
        ensures
            *final(self) == with_last_used_move_flag(with_damage_dealt_flag(*old(self))),
    {
        self.gen2_set_damage_dealt_flag();
        self.gen2_set_last_used_move_flag();
    }
}

} // verus!

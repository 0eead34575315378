use gen2_engine::choices::Choices;
use gen2_engine::instruction::{
    ChangeSideConditionInstruction, ChangeStatusInstruction, Instruction,
    RemoveVolatileStatusInstruction,
};
use gen2_engine::state::{
    LastUsedMove, Move, Pokemon, PokemonBoostableStat, PokemonIndex, PokemonSideCondition,
    PokemonStatus, PokemonType, Side, SideConditions, SideReference, State, StateTerrain,
    StateWeather, Terrain, Weather,
};
use gen2_engine::AssertGenInRange;
use gen2_engine::volatile::{PokemonVolatileStatus, VolatileStatusBitset};

fn slot(id: Choices) -> Move {
    Move {
        id,
        disabled: false,
        pp: 16,
    }
}

fn fresh_pokemon() -> Pokemon {
    Pokemon {
        types: (PokemonType::NORMAL, PokemonType::TYPELESS),
        hp: 100,
        maxhp: 100,
        attack: 100,
        defense: 100,
        special_attack: 100,
        special_defense: 100,
        speed: 100,
        status: PokemonStatus::NONE,
        rest_turns: 0,
        moves: [
            slot(Choices::TACKLE),
            slot(Choices::SPLASH),
            slot(Choices::THUNDERBOLT),
            slot(Choices::ICEBEAM),
        ],
    }
}

fn fresh_side() -> Side {
    Side {
        active_index: PokemonIndex::P0,
        pokemon: [fresh_pokemon(); 6],
        side_conditions: SideConditions {
            light_screen: 0,
            reflect: 0,
            safeguard: 0,
            spikes: 0,
            protect: 0,
            toxic_count: 0,
        },
        volatile_statuses: VolatileStatusBitset::new(),
        attack_boost: 0,
        defense_boost: 0,
        special_attack_boost: 0,
        special_defense_boost: 0,
        speed_boost: 0,
        accuracy_boost: 0,
        evasion_boost: 0,
        force_switch: false,
        force_trapped: false,
        slow_uturn_move: false,
        switch_out_move_second_saved_move: Choices::NONE,
        last_used_move: LastUsedMove::NoMove,
    }
}

fn fresh_state() -> State {
    State {
        side_one: fresh_side(),
        side_two: fresh_side(),
        weather: StateWeather {
            weather_type: Weather::NONE,
            turns_remaining: 0,
        },
        terrain: StateTerrain {
            terrain_type: Terrain::NONE,
            turns_remaining: 0,
        },
        team_preview: false,
        use_damage_dealt: false,
        use_last_used_move: false,
    }
}


#[test]
fn reset_toxic_clears_the_counter_and_the_toxic_status() {
    let mut s = fresh_state();
    s.side_two.active_index = PokemonIndex::P2;
    s.side_two.side_conditions.toxic_count = 3;
    s.side_two.pokemon[2].status = PokemonStatus::TOXIC;
    let mut instructions = Vec::new();
    s.gen2_reset_toxic(&SideReference::SideTwo, &mut instructions);
    assert_eq!(
        instructions,
        vec![
            Instruction::ChangeSideCondition(ChangeSideConditionInstruction {
                side_ref: SideReference::SideTwo,
                side_condition: PokemonSideCondition::ToxicCount,
                amount: -3,
            }),
            Instruction::ChangeStatus(ChangeStatusInstruction {
                side_ref: SideReference::SideTwo,
                pokemon_index: PokemonIndex::P2,
                old_status: PokemonStatus::TOXIC,
                new_status: PokemonStatus::POISON,
            }),
        ]
    );
    assert_eq!(s.side_two.side_conditions.toxic_count, 0);
    assert_eq!(s.side_two.pokemon[2].status, PokemonStatus::POISON);
    assert_eq!(s.side_one.side_conditions.toxic_count, 0);

    let mut again = Vec::new();
    s.gen2_reset_toxic(&SideReference::SideTwo, &mut again);
    assert!(again.is_empty());
}

#[test]
fn reset_toxic_without_toxic_records_nothing() {
    let mut s = fresh_state();
    s.side_one.pokemon[0].status = PokemonStatus::BURN;
    let mut instructions = Vec::new();
    s.gen2_reset_toxic(&SideReference::SideOne, &mut instructions);
    assert!(instructions.is_empty());
    assert_eq!(s.side_one.pokemon[0].status, PokemonStatus::BURN);
}

#[test]
fn reset_toxic_only_touches_the_counter_when_only_it_is_set() {
    let mut s = fresh_state();
    s.side_one.side_conditions.toxic_count = 1;
    let mut instructions = vec![Instruction::ChangeSideCondition(ChangeSideConditionInstruction {
        side_ref: SideReference::SideTwo,
        side_condition: PokemonSideCondition::Spikes,
        amount: 1,
    })];
    s.gen2_reset_toxic(&SideReference::SideOne, &mut instructions);
    assert_eq!(instructions.len(), 2);
    assert_eq!(
        instructions[1],
        Instruction::ChangeSideCondition(ChangeSideConditionInstruction {
            side_ref: SideReference::SideOne,
            side_condition: PokemonSideCondition::ToxicCount,
            amount: -1,
        })
    );
    assert_eq!(s.side_one.side_conditions.toxic_count, 0);
}

fn removal(side_ref: SideReference, v: PokemonVolatileStatus) -> Instruction {
    Instruction::RemoveVolatileStatus(RemoveVolatileStatusInstruction {
        side_ref,
        volatile_status: v,
    })
}

#[test]
fn switching_out_removes_every_volatile_status_in_order() {
    let mut s = fresh_state();
    s.side_one.volatile_statuses.insert(PokemonVolatileStatus::SUBSTITUTE);
    s.side_one.volatile_statuses.insert(PokemonVolatileStatus::CONFUSION);
    s.side_one.volatile_statuses.insert(PokemonVolatileStatus::LEECHSEED);
    let mut instructions = Vec::new();
    s.gen2_remove_volatile_statuses_on_switch(&SideReference::SideOne, &mut instructions, false);
    assert_eq!(
        instructions,
        vec![
            removal(SideReference::SideOne, PokemonVolatileStatus::CONFUSION),
            removal(SideReference::SideOne, PokemonVolatileStatus::LEECHSEED),
            removal(SideReference::SideOne, PokemonVolatileStatus::SUBSTITUTE),
        ]
    );
    assert!(!s.side_one.volatile_statuses.contains(&PokemonVolatileStatus::SUBSTITUTE));
    assert!(!s.side_one.volatile_statuses.contains(&PokemonVolatileStatus::CONFUSION));
    assert!(!s.side_one.volatile_statuses.contains(&PokemonVolatileStatus::LEECHSEED));
}

#[test]
fn baton_pass_keeps_substitute_and_leech_seed() {
    let mut s = fresh_state();
    s.side_two.volatile_statuses.insert(PokemonVolatileStatus::SUBSTITUTE);
    s.side_two.volatile_statuses.insert(PokemonVolatileStatus::CONFUSION);
    s.side_two.volatile_statuses.insert(PokemonVolatileStatus::LEECHSEED);
    s.side_two.volatile_statuses.insert(PokemonVolatileStatus::YAWN);
    let mut instructions = Vec::new();
    s.gen2_remove_volatile_statuses_on_switch(&SideReference::SideTwo, &mut instructions, true);
    assert_eq!(
        instructions,
        vec![
            removal(SideReference::SideTwo, PokemonVolatileStatus::CONFUSION),
            removal(SideReference::SideTwo, PokemonVolatileStatus::YAWN),
        ]
    );
    assert!(s.side_two.volatile_statuses.contains(&PokemonVolatileStatus::SUBSTITUTE));
    assert!(s.side_two.volatile_statuses.contains(&PokemonVolatileStatus::LEECHSEED));
    assert!(!s.side_two.volatile_statuses.contains(&PokemonVolatileStatus::YAWN));

    let mut again = Vec::new();
    s.gen2_remove_volatile_statuses_on_switch(&SideReference::SideTwo, &mut again, true);
    assert!(again.is_empty());
}

#[test]
fn damage_dealt_flag_follows_the_moves_known() {
    let mut s = fresh_state();
    s.gen2_set_damage_dealt_flag();
    assert!(!s.use_damage_dealt);
    s.side_two.pokemon[4].moves[2] = slot(Choices::COUNTER);
    s.gen2_set_damage_dealt_flag();
    assert!(s.use_damage_dealt);
    assert!(!s.use_last_used_move);
}

#[test]
fn last_used_move_flag_follows_the_moves_known() {
    let mut s = fresh_state();
    s.gen2_set_last_used_move_flag();
    assert!(!s.use_last_used_move);
    s.side_one.pokemon[5].moves[3] = slot(Choices::FAKEOUT);
    s.gen2_set_last_used_move_flag();
    assert!(s.use_last_used_move);
}

#[test]
fn conditional_mechanics_set_both_flags() {
    let mut s = fresh_state();
    s.side_one.pokemon[1].moves[0] = slot(Choices::ENCORE);
    s.side_two.pokemon[0].moves[0] = slot(Choices::MIRRORCOAT);
    s.gen2_set_conditional_mechanics();
    assert!(s.use_damage_dealt);
    assert!(s.use_last_used_move);
}

#[test]
fn boosted_stats_follow_the_stage_table() {
    let mut s = fresh_state();
    s.side_one.pokemon[0].attack = 200;
    s.side_one.pokemon[0].speed = 101;
    s.side_one.attack_boost = -1;
    assert_eq!(s.side_one.gen2_calculate_boosted_stat(PokemonBoostableStat::Attack), 132);
    s.side_one.attack_boost = -6;
    assert_eq!(s.side_one.gen2_calculate_boosted_stat(PokemonBoostableStat::Attack), 50);
    s.side_one.attack_boost = 2;
    assert_eq!(s.side_one.gen2_calculate_boosted_stat(PokemonBoostableStat::Attack), 400);
    s.side_one.speed_boost = 1;
    assert_eq!(s.side_one.gen2_calculate_boosted_stat(PokemonBoostableStat::Speed), 151);
    s.side_one.defense_boost = -5;
    assert_eq!(s.side_one.gen2_calculate_boosted_stat(PokemonBoostableStat::Defense), 28);
    assert_eq!(s.side_one.gen2_calculate_boosted_stat(PokemonBoostableStat::SpecialAttack), 100);
    s.side_one.special_defense_boost = 6;
    assert_eq!(s.side_one.gen2_calculate_boosted_stat(PokemonBoostableStat::SpecialDefense), 400);
}

#[test]
fn boosted_negative_stat_rounds_toward_zero() {
    let mut s = fresh_state();
    s.side_one.pokemon[0].attack = -5;
    s.side_one.attack_boost = 1;
    assert_eq!(s.side_one.gen2_calculate_boosted_stat(PokemonBoostableStat::Attack), -7);
}

#[test]
fn boost_lookup_by_stat() {
    let mut s = fresh_state();
    s.side_one.evasion_boost = 2;
    s.side_one.accuracy_boost = -3;
    s.side_one.speed_boost = 4;
    assert_eq!(s.side_one.gen2_get_boost_from_boost_enum(&PokemonBoostableStat::Evasion), 2);
    assert_eq!(s.side_one.gen2_get_boost_from_boost_enum(&PokemonBoostableStat::Accuracy), -3);
    assert_eq!(s.side_one.gen2_get_boost_from_boost_enum(&PokemonBoostableStat::Speed), 4);
    assert_eq!(s.side_one.gen2_get_boost_from_boost_enum(&PokemonBoostableStat::Attack), 0);
}

#[test]
fn sleeping_and_frozen_pokemon_are_found() {
    let mut s = fresh_state();
    assert!(!s.side_one.gen2_has_alive_non_rested_sleeping_pkmn());
    s.side_one.pokemon[3].status = PokemonStatus::SLEEP;
    s.side_one.pokemon[3].rest_turns = 2;
    assert!(!s.side_one.gen2_has_alive_non_rested_sleeping_pkmn());
    s.side_one.pokemon[4].status = PokemonStatus::SLEEP;
    s.side_one.pokemon[4].hp = 0;
    assert!(!s.side_one.gen2_has_alive_non_rested_sleeping_pkmn());
    s.side_one.pokemon[5].status = PokemonStatus::SLEEP;
    assert!(s.side_one.gen2_has_alive_non_rested_sleeping_pkmn());

    assert!(!s.side_two.gen2_has_alive_frozen_pokemon());
    s.side_two.pokemon[1].status = PokemonStatus::FREEZE;
    s.side_two.pokemon[1].hp = 0;
    assert!(!s.side_two.gen2_has_alive_frozen_pokemon());
    s.side_two.pokemon[2].status = PokemonStatus::FREEZE;
    assert!(s.side_two.gen2_has_alive_frozen_pokemon());
}

#[test]
fn volatile_statuses_that_can_be_applied() {
    let mut p = fresh_pokemon();
    let mut active = VolatileStatusBitset::new();
    assert!(p.gen2_volatile_status_can_be_applied(&PokemonVolatileStatus::CONFUSION, &active, false));
    assert!(!p.gen2_volatile_status_can_be_applied(&PokemonVolatileStatus::FLINCH, &active, false));
    assert!(p.gen2_volatile_status_can_be_applied(&PokemonVolatileStatus::FLINCH, &active, true));
    assert!(!p.gen2_volatile_status_can_be_applied(&PokemonVolatileStatus::PROTECT, &active, false));
    assert!(p.gen2_volatile_status_can_be_applied(&PokemonVolatileStatus::PROTECT, &active, true));
    p.hp = 25;
    assert!(!p.gen2_volatile_status_can_be_applied(&PokemonVolatileStatus::SUBSTITUTE, &active, true));
    p.hp = 26;
    assert!(p.gen2_volatile_status_can_be_applied(&PokemonVolatileStatus::SUBSTITUTE, &active, true));
    active.insert(PokemonVolatileStatus::SUBSTITUTE);
    assert!(!p.gen2_volatile_status_can_be_applied(&PokemonVolatileStatus::SUBSTITUTE, &active, true));
    assert!(!p.gen2_volatile_status_can_be_applied(&PokemonVolatileStatus::LEECHSEED, &active, true));
    assert!(p.gen2_volatile_status_can_be_applied(&PokemonVolatileStatus::TAUNT, &active, true));
    p.hp = 0;
    assert!(!p.gen2_volatile_status_can_be_applied(&PokemonVolatileStatus::TAUNT, &active, true));
}

#[test]
fn substitute_blocks_stat_drops() {
    let p = fresh_pokemon();
    let mut v = VolatileStatusBitset::new();
    assert!(!p.gen2_immune_to_stats_lowered_by_opponent(&PokemonBoostableStat::Attack, &v));
    v.insert(PokemonVolatileStatus::SUBSTITUTE);
    assert!(p.gen2_immune_to_stats_lowered_by_opponent(&PokemonBoostableStat::Attack, &v));
}

#[test]
fn types_items_and_grounding() {
    let mut p = fresh_pokemon();
    assert!(p.gen2_has_type(&PokemonType::NORMAL));
    assert!(!p.gen2_has_type(&PokemonType::FIRE));
    assert!(p.gen2_is_grounded());
    p.types = (PokemonType::FIRE, PokemonType::FLYING);
    assert!(p.gen2_has_type(&PokemonType::FIRE));
    assert!(!p.gen2_is_grounded());
    assert!(!p.gen2_item_is_permanent());
    assert!(p.gen2_item_can_be_removed());
}

#[test]
fn trapped_by_locked_move_or_partial_trap() {
    let mut s = fresh_state();
    let opponent = fresh_pokemon();
    assert!(!s.side_one.gen2_trapped(&opponent));
    s.side_one.volatile_statuses.insert(PokemonVolatileStatus::LOCKEDMOVE);
    assert!(s.side_one.gen2_trapped(&opponent));
    s.side_one.volatile_statuses.remove(PokemonVolatileStatus::LOCKEDMOVE);
    assert!(!s.side_one.gen2_trapped(&opponent));
    s.side_one.volatile_statuses.insert(PokemonVolatileStatus::PARTIALLYTRAPPED);
    assert!(s.side_one.gen2_trapped(&opponent));
}

#[test]
fn terrain_and_weather() {
    let mut s = fresh_state();
    s.terrain = StateTerrain {
        terrain_type: Terrain::GRASSYTERRAIN,
        turns_remaining: 0,
    };
    assert!(!s.gen2_terrain_is_active(&Terrain::GRASSYTERRAIN));
    s.terrain.turns_remaining = 3;
    assert!(s.gen2_terrain_is_active(&Terrain::GRASSYTERRAIN));
    assert!(!s.gen2_terrain_is_active(&Terrain::MISTYTERRAIN));
    s.weather.weather_type = Weather::RAIN;
    assert!(s.gen2_weather_is_active(&Weather::RAIN));
    assert!(!s.gen2_weather_is_active(&Weather::SUN));
}

#[test]
fn bitset_insert_remove_contains() {
    let mut b = VolatileStatusBitset::new();
    assert!(!b.contains(&PokemonVolatileStatus::AQUARING));
    b.insert(PokemonVolatileStatus::AQUARING);
    b.insert(PokemonVolatileStatus::YAWN);
    assert!(b.contains(&PokemonVolatileStatus::AQUARING));
    assert!(b.contains(&PokemonVolatileStatus::YAWN));
    assert!(!b.contains(&PokemonVolatileStatus::TAUNT));
    b.remove(PokemonVolatileStatus::AQUARING);
    assert!(!b.contains(&PokemonVolatileStatus::AQUARING));
    assert!(b.contains(&PokemonVolatileStatus::YAWN));
}

#[test]
fn generation_range_guard() {
    assert!(AssertGenInRange::<4>::check());
    assert!(AssertGenInRange::<9>::check());
    assert!(!AssertGenInRange::<3>::check());
    assert!(!AssertGenInRange::<10>::check());
    assert_eq!(gen2_engine::MIN_GEN, 4);
    assert_eq!(gen2_engine::MAX_GEN, 9);
    assert_eq!(gen2_engine::DEFAULT_GEN, 9);
}

use gen2_engine::choices::Choices;
use gen2_engine::gen_dispatch::dispatch;
use gen2_engine::state::{
    LastUsedMove, Move, MoveChoice, Pokemon, PokemonIndex, PokemonMoveIndex, PokemonStatus,
    PokemonType, Side, SideConditions, State, StateTerrain, StateWeather, Terrain, Weather,
};
use gen2_engine::volatile::{PokemonVolatileStatus, VolatileStatusBitset};

fn mv(id: Choices) -> Move {
    Move {
        id,
        disabled: false,
        pp: 16,
    }
}

fn pokemon() -> Pokemon {
    Pokemon {
        types: (PokemonType::NORMAL, PokemonType::TYPELESS),
        hp: 100,
        maxhp: 100,
        attack: 100,
        defense: 100,
        special_attack: 100,
        special_defense: 100,
        speed: 100,
        status: PokemonStatus::NONE,
        rest_turns: 0,
        moves: [
            mv(Choices::TACKLE),
            mv(Choices::SPLASH),
            mv(Choices::THUNDERBOLT),
            mv(Choices::ICEBEAM),
        ],
    }
}

fn side() -> Side {
    Side {
        active_index: PokemonIndex::P0,
        pokemon: [pokemon(); 6],
        side_conditions: SideConditions {
            light_screen: 0,
            reflect: 0,
            safeguard: 0,
            spikes: 0,
            protect: 0,
            toxic_count: 0,
        },
        volatile_statuses: VolatileStatusBitset::new(),
        attack_boost: 0,
        defense_boost: 0,
        special_attack_boost: 0,
        special_defense_boost: 0,
        speed_boost: 0,
        accuracy_boost: 0,
        evasion_boost: 0,
        force_switch: false,
        force_trapped: false,
        slow_uturn_move: false,
        switch_out_move_second_saved_move: Choices::NONE,
        last_used_move: LastUsedMove::NoMove,
    }
}

fn state() -> State {
    State {
        side_one: side(),
        side_two: side(),
        weather: StateWeather {
            weather_type: Weather::NONE,
            turns_remaining: 0,
        },
        terrain: StateTerrain {
            terrain_type: Terrain::NONE,
            turns_remaining: 0,
        },
        team_preview: false,
        use_damage_dealt: false,
        use_last_used_move: false,
    }
}

fn all_moves() -> Vec<MoveChoice> {
    vec![
        MoveChoice::Move(PokemonMoveIndex::M0),
        MoveChoice::Move(PokemonMoveIndex::M1),
        MoveChoice::Move(PokemonMoveIndex::M2),
        MoveChoice::Move(PokemonMoveIndex::M3),
    ]
}

fn switches_except_p0() -> Vec<MoveChoice> {
    vec![
        MoveChoice::Switch(PokemonIndex::P1),
        MoveChoice::Switch(PokemonIndex::P2),
        MoveChoice::Switch(PokemonIndex::P3),
        MoveChoice::Switch(PokemonIndex::P4),
        MoveChoice::Switch(PokemonIndex::P5),
    ]
}

#[test]
fn ordinary_turn_offers_moves_then_switches() {
    let s = state();
    let (o1, o2) = s.gen2_get_all_options();
    let mut expected = all_moves();
    expected.extend(switches_except_p0());
    assert_eq!(o1, expected);
    assert_eq!(o2, expected);
}

#[test]
fn disabled_and_empty_moves_are_not_offered() {
    let mut s = state();
    s.side_one.pokemon[0].moves[1].disabled = true;
    s.side_one.pokemon[0].moves[3].pp = 0;
    let (o1, _) = s.gen2_get_all_options();
    let mut expected = vec![
        MoveChoice::Move(PokemonMoveIndex::M0),
        MoveChoice::Move(PokemonMoveIndex::M2),
    ];
    expected.extend(switches_except_p0());
    assert_eq!(o1, expected);
}

#[test]
fn fainted_pokemon_cannot_be_switched_in() {
    let mut s = state();
    s.side_one.pokemon[2].hp = 0;
    s.side_one.pokemon[4].hp = 0;
    let (o1, _) = s.gen2_get_all_options();
    let mut expected = all_moves();
    expected.extend(vec![
        MoveChoice::Switch(PokemonIndex::P1),
        MoveChoice::Switch(PokemonIndex::P3),
        MoveChoice::Switch(PokemonIndex::P5),
    ]);
    assert_eq!(o1, expected);
}

#[test]
fn encore_locks_the_last_move() {
    let mut s = state();
    s.side_one.volatile_statuses.insert(PokemonVolatileStatus::ENCORE);
    s.side_one.last_used_move = LastUsedMove::Move(PokemonMoveIndex::M2);
    let (o1, _) = s.gen2_get_all_options();
    let mut expected = vec![MoveChoice::Move(PokemonMoveIndex::M2)];
    expected.extend(switches_except_p0());
    assert_eq!(o1, expected);
}

#[test]
fn encore_without_a_last_move_locks_nothing() {
    let mut s = state();
    s.side_one.volatile_statuses.insert(PokemonVolatileStatus::ENCORE);
    s.side_one.last_used_move = LastUsedMove::Switch(PokemonIndex::P1);
    let (o1, _) = s.gen2_get_all_options();
    let mut expected = all_moves();
    expected.extend(switches_except_p0());
    assert_eq!(o1, expected);
}

#[test]
fn blood_moon_cannot_be_used_twice_in_a_row() {
    let mut s = state();
    s.side_one.pokemon[0].moves[1] = mv(Choices::BLOODMOON);
    s.side_one.last_used_move = LastUsedMove::Move(PokemonMoveIndex::M1);
    let (o1, _) = s.gen2_get_all_options();
    let mut expected = vec![
        MoveChoice::Move(PokemonMoveIndex::M0),
        MoveChoice::Move(PokemonMoveIndex::M2),
        MoveChoice::Move(PokemonMoveIndex::M3),
    ];
    expected.extend(switches_except_p0());
    assert_eq!(o1, expected);
}

#[test]
fn a_side_that_must_recharge_does_nothing() {
    let mut s = state();
    s.side_two.volatile_statuses.insert(PokemonVolatileStatus::MUSTRECHARGE);
    let (_, o2) = s.gen2_get_all_options();
    assert_eq!(o2, vec![MoveChoice::NoMove]);
}

#[test]
fn a_trapped_side_cannot_switch() {
    let mut s = state();
    s.side_one.volatile_statuses.insert(PokemonVolatileStatus::PARTIALLYTRAPPED);
    s.side_two.volatile_statuses.insert(PokemonVolatileStatus::LOCKEDMOVE);
    let (o1, o2) = s.gen2_get_all_options();
    assert_eq!(o1, all_moves());
    assert_eq!(o2, all_moves());
}

#[test]
fn a_trapped_side_with_no_usable_move_does_nothing() {
    let mut s = state();
    s.side_one.volatile_statuses.insert(PokemonVolatileStatus::LOCKEDMOVE);
    for m in s.side_one.pokemon[0].moves.iter_mut() {
        m.pp = 0;
    }
    let (o1, _) = s.gen2_get_all_options();
    assert_eq!(o1, vec![MoveChoice::NoMove]);
}

#[test]
fn forced_switch_with_no_saved_move() {
    let mut s = state();
    s.side_one.force_switch = true;
    let (o1, o2) = s.gen2_get_all_options();
    assert_eq!(o1, switches_except_p0());
    assert_eq!(o2, vec![MoveChoice::NoMove]);
}

#[test]
fn forced_switch_with_a_saved_move() {
    let mut s = state();
    s.side_two.force_switch = true;
    s.side_one.switch_out_move_second_saved_move = Choices::THUNDERBOLT;
    let (o1, o2) = s.gen2_get_all_options();
    assert_eq!(o1, vec![MoveChoice::Move(PokemonMoveIndex::M2)]);
    assert_eq!(o2, switches_except_p0());
}

#[test]
fn forced_switch_with_a_saved_move_the_pokemon_lacks() {
    let mut s = state();
    s.side_one.force_switch = true;
    s.side_two.switch_out_move_second_saved_move = Choices::SURF;
    let (_, o2) = s.gen2_get_all_options();
    assert_eq!(o2, Vec::<MoveChoice>::new());
}

#[test]
fn forced_switch_with_no_pokemon_left_does_nothing() {
    let mut s = state();
    for p in 1..6 {
        s.side_one.pokemon[p].hp = 0;
    }
    s.side_one.force_switch = true;
    let (o1, _) = s.gen2_get_all_options();
    assert_eq!(o1, vec![MoveChoice::NoMove]);
}

#[test]
fn a_fainted_active_pokemon_must_be_replaced() {
    let mut s = state();
    s.side_two.pokemon[0].hp = 0;
    let (o1, o2) = s.gen2_get_all_options();
    assert_eq!(o1, vec![MoveChoice::NoMove]);
    assert_eq!(o2, switches_except_p0());
}

#[test]
fn both_active_pokemon_fainted() {
    let mut s = state();
    s.side_one.pokemon[0].hp = 0;
    s.side_two.pokemon[0].hp = 0;
    s.side_two.pokemon[3].hp = 0;
    let (o1, o2) = s.gen2_get_all_options();
    assert_eq!(o1, switches_except_p0());
    assert_eq!(
        o2,
        vec![
            MoveChoice::Switch(PokemonIndex::P1),
            MoveChoice::Switch(PokemonIndex::P2),
            MoveChoice::Switch(PokemonIndex::P4),
            MoveChoice::Switch(PokemonIndex::P5),
        ]
    );
}

#[test]
fn team_preview_offers_every_living_pokemon() {
    let mut s = state();
    s.team_preview = true;
    s.side_two.pokemon[5].hp = 0;
    let (o1, o2) = s.gen2_root_get_all_options();
    assert_eq!(o1.len(), 6);
    assert_eq!(o1[0], MoveChoice::Switch(PokemonIndex::P0));
    assert_eq!(o2.len(), 5);
    assert!(!o2.contains(&MoveChoice::Switch(PokemonIndex::P5)));
}

#[test]
fn root_options_drop_switches_of_a_force_trapped_side() {
    let mut s = state();
    s.side_one.force_trapped = true;
    let (o1, o2) = s.gen2_root_get_all_options();
    assert_eq!(o1, all_moves());
    let mut expected = all_moves();
    expected.extend(switches_except_p0());
    assert_eq!(o2, expected);
}

#[test]
fn root_options_after_a_slow_u_turn_are_moves() {
    let mut s = state();
    s.side_two.slow_uturn_move = true;
    s.side_two.pokemon[0].moves[0].disabled = true;
    let (_, o2) = s.gen2_root_get_all_options();
    assert_eq!(
        o2,
        vec![
            MoveChoice::Move(PokemonMoveIndex::M1),
            MoveChoice::Move(PokemonMoveIndex::M2),
            MoveChoice::Move(PokemonMoveIndex::M3),
        ]
    );
}

#[test]
fn root_options_are_never_empty_outside_team_preview() {
    let mut s = state();
    s.side_one.force_switch = true;
    s.side_two.switch_out_move_second_saved_move = Choices::SURF;
    let (o1, o2) = s.gen2_root_get_all_options();
    assert_eq!(o1, switches_except_p0());
    assert_eq!(o2, vec![MoveChoice::NoMove]);
}

#[test]
fn dispatch_serves_the_same_options() {
    let mut s = state();
    s.side_one.force_trapped = true;
    assert_eq!(dispatch::get_all_options::<2>(&s), s.gen2_get_all_options());
    assert_eq!(
        dispatch::root_get_all_options::<2>(&s),
        s.gen2_root_get_all_options()
    );
}

#[test]
fn add_available_moves_appends() {
    let s = state();
    let mut v = vec![MoveChoice::NoMove];
    s.side_one.pokemon[0].gen2_add_available_moves(&mut v, &LastUsedMove::NoMove, false);
    let mut expected = vec![MoveChoice::NoMove];
    expected.extend(all_moves());
    assert_eq!(v, expected);
}

#[test]
fn add_switches_to_a_nonempty_list_adds_no_no_move() {
    let mut s = state();
    for p in 1..6 {
        s.side_one.pokemon[p].hp = 0;
    }
    let mut v = vec![MoveChoice::Move(PokemonMoveIndex::M0)];
    s.side_one.gen2_add_switches(&mut v);
    assert_eq!(v, vec![MoveChoice::Move(PokemonMoveIndex::M0)]);
    let mut empty = Vec::new();
    s.side_one.gen2_add_switches(&mut empty);
    assert_eq!(empty, vec![MoveChoice::NoMove]);
}

#[test]
fn add_move_from_choice_finds_every_slot_with_the_move() {
    let mut p = pokemon();
    p.moves[3] = mv(Choices::TACKLE);
    let mut v = Vec::new();
    p.gen2_add_move_from_choice(&mut v, Choices::TACKLE);
    assert_eq!(
        v,
        vec![
            MoveChoice::Move(PokemonMoveIndex::M0),
            MoveChoice::Move(PokemonMoveIndex::M3),
        ]
    );
}

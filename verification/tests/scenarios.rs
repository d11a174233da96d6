use xixi_verifier::entry::{do_main, encode_route};
use xixi_verifier::model::{
    AttrType, Enemy, GameConfig, GameError, LevelUp, MajorDesc, MinorDesc, PlayerState,
};
use xixi_verifier::simulator::simulate_game;

fn init_player(hp: i32) -> PlayerState {
    PlayerState { hp, atk: 10, def: 10, mdef: 0, exp: 0, lv: 0, salt: 0, big_salt: 0 }
}

fn two_node_config(effect: MajorDesc) -> GameConfig {
    GameConfig {
        major_adj: vec![vec![], vec![0]],
        major_minor_adj: vec![vec![], vec![]],
        major_desc: vec![MajorDesc::Delta(vec![]), effect],
        minor_desc: vec![],
        enemy_data: vec![],
        init_stat: init_player(100),
        levelup_desc: vec![],
    }
}

fn route_bytes(route: &[u32]) -> Vec<u8> {
    encode_route(&route.to_vec())
}

#[test]
fn minimal_accepting_route() {
    let config = two_node_config(MajorDesc::Delta(vec![(AttrType::Hp, 5)]));
    let r = do_main(&config, &route_bytes(&[1]));
    assert_eq!(r, Ok(vec![105]));
}

#[test]
fn revisit_rejected() {
    let config = two_node_config(MajorDesc::Delta(vec![(AttrType::Hp, 5)]));
    let r = do_main(&config, &route_bytes(&[1, 1]));
    assert_eq!(r, Err(GameError::AlreadyVisited));
}

#[test]
fn unreachable_rejected() {
    let config = GameConfig {
        major_adj: vec![vec![], vec![0], vec![1]],
        major_minor_adj: vec![vec![], vec![], vec![]],
        major_desc: vec![
            MajorDesc::Delta(vec![]),
            MajorDesc::Delta(vec![]),
            MajorDesc::Delta(vec![]),
        ],
        minor_desc: vec![],
        enemy_data: vec![],
        init_stat: init_player(100),
        levelup_desc: vec![],
    };
    let r = do_main(&config, &route_bytes(&[2, 1]));
    assert_eq!(r, Err(GameError::Unreachable));
}

#[test]
fn missing_terminator_rejected() {
    let config = GameConfig {
        major_adj: vec![vec![], vec![0], vec![1]],
        major_minor_adj: vec![vec![], vec![], vec![]],
        major_desc: vec![
            MajorDesc::Delta(vec![]),
            MajorDesc::Delta(vec![]),
            MajorDesc::Delta(vec![]),
        ],
        minor_desc: vec![],
        enemy_data: vec![],
        init_stat: init_player(100),
        levelup_desc: vec![],
    };
    let r = do_main(&config, &route_bytes(&[1, 2]));
    assert_eq!(r, Err(GameError::MissingTerminator));
}

#[test]
fn empty_route_rejected() {
    let config = two_node_config(MajorDesc::Delta(vec![]));
    let r = do_main(&config, &route_bytes(&[]));
    assert_eq!(r, Err(GameError::EmptyRoute));
}

#[test]
fn odd_length_bytes_rejected() {
    let config = two_node_config(MajorDesc::Delta(vec![]));
    let r = do_main(&config, &vec![1, 0, 0]);
    assert_eq!(r, Err(GameError::MalformedRoute));
}

#[test]
fn debt_left_behind() {
    let config = two_node_config(MajorDesc::Delta(vec![(AttrType::Hp, -1_000_000_000)]));
    let r = do_main(&config, &route_bytes(&[1]));
    assert_eq!(r, Err(GameError::OutstandingDebt));
}

#[test]
fn combat_overflow_clamp_ends_in_debt() {
    let mut config = two_node_config(MajorDesc::Enemy(0));
    config.enemy_data = vec![Enemy {
        atk: i32::MAX,
        def: 0,
        hp: i32::MAX,
        attimes: i32::MAX,
        exp: 0,
        magic: true,
        solid: false,
        speedy: false,
        nobomb: false,
    }];
    let r = do_main(&config, &route_bytes(&[1]));
    assert!(r == Err(GameError::OutstandingDebt) || r == Err(GameError::PlayerDead));
}

#[test]
fn battle_rewards_experience() {
    let mut config = two_node_config(MajorDesc::Enemy(0));
    config.init_stat = PlayerState {
        hp: 200,
        atk: 15,
        def: 12,
        mdef: 3,
        exp: 0,
        lv: 0,
        salt: 0,
        big_salt: 0,
    };
    config.enemy_data = vec![Enemy {
        atk: 30,
        def: 5,
        hp: 40,
        attimes: 2,
        exp: 7,
        magic: false,
        solid: false,
        speedy: false,
        nobomb: false,
    }];
    let final_state = simulate_game(&config, &vec![1]).unwrap();
    assert_eq!(final_state.hp, 95);
    assert_eq!(final_state.exp, 7);
    let r = do_main(&config, &route_bytes(&[1]));
    assert_eq!(r, Ok(vec![95]));
}

#[test]
fn delta_dispatch_touches_each_attribute() {
    let config = two_node_config(MajorDesc::Delta(vec![
        (AttrType::Hp, 1),
        (AttrType::Atk, 2),
        (AttrType::Def, 3),
        (AttrType::Mdef, 4),
        (AttrType::Exp, 5),
        (AttrType::Lv, 6),
        (AttrType::Salt, 0),
        (AttrType::BigSalt, 0),
    ]));
    let final_state = simulate_game(&config, &vec![1]).unwrap();
    assert_eq!(final_state.hp, 101);
    assert_eq!(final_state.atk, 12);
    assert_eq!(final_state.def, 13);
    assert_eq!(final_state.mdef, 4);
    assert_eq!(final_state.exp, 5);
    assert_eq!(final_state.lv, 6);
    assert_eq!(final_state.salt, 0);
    assert_eq!(final_state.big_salt, 0);
}

#[test]
fn negative_attribute_change_creates_debt() {
    let config = two_node_config(MajorDesc::Delta(vec![(AttrType::Atk, -20)]));
    let r = do_main(&config, &route_bytes(&[1]));
    assert_eq!(r, Err(GameError::OutstandingDebt));
}

#[test]
fn minor_unlock_applies_bonus_once() {
    let mut config = two_node_config(MajorDesc::Delta(vec![]));
    config.major_minor_adj = vec![vec![], vec![0, 0]];
    config.minor_desc = vec![MinorDesc { atk: 1, def: 2, hp: 3, mdef: 4 }];
    let final_state = simulate_game(&config, &vec![1]).unwrap();
    // the second occurrence of the same minor id is already completed
    assert_eq!(final_state.hp, 103);
    assert_eq!(final_state.atk, 11);
    assert_eq!(final_state.def, 12);
    assert_eq!(final_state.mdef, 4);
}

#[test]
fn level_up_runs_after_normalization() {
    let mut config = two_node_config(MajorDesc::Delta(vec![(AttrType::Exp, 10)]));
    config.levelup_desc = vec![LevelUp { minor: 0, need: 5, clear: true }];
    config.minor_desc = vec![MinorDesc { atk: 0, def: 0, hp: 3, mdef: 0 }];
    let final_state = simulate_game(&config, &vec![1]).unwrap();
    assert_eq!(final_state.lv, 1);
    assert_eq!(final_state.exp, 5);
    assert_eq!(final_state.hp, 103);
}

#[test]
fn player_dead_when_level_bonus_drains_hp() {
    let mut config = two_node_config(MajorDesc::Delta(vec![(AttrType::Exp, 10)]));
    config.levelup_desc = vec![LevelUp { minor: 0, need: 5, clear: true }];
    config.minor_desc = vec![MinorDesc { atk: 0, def: 0, hp: -1000, mdef: 0 }];
    let r = do_main(&config, &route_bytes(&[1]));
    assert_eq!(r, Err(GameError::PlayerDead));
}

#[test]
fn overflow_surfaces_through_do_main() {
    let mut config = two_node_config(MajorDesc::Delta(vec![
        (AttrType::Salt, i32::MAX),
        (AttrType::BigSalt, 1),
    ]));
    config.init_stat = init_player(10);
    let r = do_main(&config, &route_bytes(&[1]));
    assert_eq!(r, Err(GameError::Overflow));
}

#[test]
fn simulation_is_deterministic() {
    let mut config = two_node_config(MajorDesc::Enemy(0));
    config.enemy_data = vec![Enemy {
        atk: 30,
        def: 5,
        hp: 40,
        attimes: 2,
        exp: 7,
        magic: true,
        solid: true,
        speedy: true,
        nobomb: false,
    }];
    let first = simulate_game(&config, &vec![1]);
    let second = simulate_game(&config, &vec![1]);
    assert_eq!(first, second);
}

#[test]
fn accepted_route_visits_each_node_once() {
    let config = GameConfig {
        major_adj: vec![vec![], vec![0], vec![1], vec![2]],
        major_minor_adj: vec![vec![], vec![], vec![], vec![]],
        major_desc: vec![
            MajorDesc::Delta(vec![]),
            MajorDesc::Delta(vec![]),
            MajorDesc::Delta(vec![]),
            MajorDesc::Delta(vec![]),
        ],
        minor_desc: vec![],
        enemy_data: vec![],
        init_stat: init_player(100),
        levelup_desc: vec![],
    };
    assert_eq!(do_main(&config, &route_bytes(&[2, 3, 1])), Err(GameError::Unreachable));
    assert_eq!(do_main(&config, &route_bytes(&[3, 2, 1])), Err(GameError::Unreachable));
    assert_eq!(do_main(&config, &route_bytes(&[2, 2, 1])), Err(GameError::Unreachable));
    assert_eq!(do_main(&config, &route_bytes(&[1, 2, 3])), Err(GameError::MissingTerminator));
}

#[test]
fn validate_accepts_well_formed() {
    let config = two_node_config(MajorDesc::Delta(vec![]));
    assert!(config.validate().is_ok());
    assert!(config.is_well_formed());
}

#[test]
fn validate_rejects_length_mismatch() {
    let mut config = two_node_config(MajorDesc::Delta(vec![]));
    config.major_desc.pop();
    assert_eq!(config.validate(), Err(GameError::InvalidConfig));
}

#[test]
fn validate_rejects_dangling_enemy() {
    let config = two_node_config(MajorDesc::Enemy(0));
    // no enemy table entry for id 0
    assert_eq!(config.validate(), Err(GameError::InvalidConfig));
}

#[test]
fn validate_rejects_empty_graph() {
    let config = GameConfig {
        major_adj: vec![],
        major_minor_adj: vec![],
        major_desc: vec![],
        minor_desc: vec![],
        enemy_data: vec![],
        init_stat: init_player(100),
        levelup_desc: vec![],
    };
    assert_eq!(config.validate(), Err(GameError::InvalidConfig));
}

use xixi_verifier::combat::CombatCalculator;
use xixi_verifier::levelup::process;
use xixi_verifier::model::{Enemy, GameConfig, GameError, LevelUp, MajorDesc, MinorDesc, PlayerState};
use xixi_verifier::resources::ResourceManager;

fn player(hp: i32, atk: i32, def: i32, mdef: i32) -> PlayerState {
    PlayerState { hp, atk, def, mdef, exp: 0, lv: 0, salt: 0, big_salt: 0 }
}

fn enemy(atk: i32, def: i32, hp: i32, attimes: i32) -> Enemy {
    Enemy { atk, def, hp, attimes, exp: 7, magic: false, solid: false, speedy: false, nobomb: false }
}

#[test]
fn damage_low_attack_equal() {
    let p = player(100, 5, 0, 0);
    let e = enemy(3, 5, 10, 1);
    assert_eq!(CombatCalculator::calculate_damage(&p, &e), (0, 2));
}

#[test]
fn damage_low_attack_below() {
    let p = player(100, 3, 0, 0);
    let e = enemy(3, 5, 10, 1);
    assert_eq!(CombatCalculator::calculate_damage(&p, &e), (2 * 256, 2));
}

#[test]
fn damage_plain() {
    let p = player(200, 15, 12, 3);
    let e = enemy(30, 5, 40, 2);
    // per = 10, n = 3 * 2 = 6, per_e = 18, total = 108, minus mdef 3
    assert_eq!(CombatCalculator::calculate_damage(&p, &e), (105, 0));
}

#[test]
fn damage_solid() {
    let p = player(200, 15, 12, 3);
    let mut e = enemy(30, 5, 40, 2);
    e.solid = true;
    // per = 1, n = 39 * 2 = 78, total = 1404, minus mdef 3
    assert_eq!(CombatCalculator::calculate_damage(&p, &e), (1401, 0));
}

#[test]
fn damage_speedy() {
    let p = player(200, 15, 12, 3);
    let mut e = enemy(30, 5, 40, 2);
    e.speedy = true;
    // n = (3 + 1) * 2 = 8, total = 144, minus mdef 3
    assert_eq!(CombatCalculator::calculate_damage(&p, &e), (141, 0));
}

#[test]
fn damage_magic() {
    let p = player(200, 15, 12, 3);
    let mut e = enemy(30, 5, 40, 2);
    e.magic = true;
    // per_e = 30 (defence ignored), total = 180, minus mdef 3
    assert_eq!(CombatCalculator::calculate_damage(&p, &e), (177, 0));
}

#[test]
fn damage_all_flags() {
    let p = player(200, 15, 12, 3);
    let mut e = enemy(30, 5, 40, 2);
    e.solid = true;
    e.speedy = true;
    e.magic = true;
    // per = 1, n = (39 + 1) * 2 = 80, per_e = 30, total = 2400, minus mdef 3
    assert_eq!(CombatCalculator::calculate_damage(&p, &e), (2397, 0));
}

#[test]
fn damage_overflow_clamps() {
    let p = player(200, 3, 0, 0);
    let mut e = enemy(1 << 30, 0, 1 << 30, 1);
    e.magic = true;
    // per_e * n does not fit an i32
    assert_eq!(CombatCalculator::calculate_damage(&p, &e), (i32::MAX, 1));
}

#[test]
fn safe_change_negative_sum_becomes_debt() {
    let mut value = 10;
    let mut big_salt = 0;
    ResourceManager::apply_safe_attribute_change(&mut value, -20, &mut big_salt);
    assert_eq!((value, big_salt), (0, 10));
}

#[test]
fn safe_change_positive_overflow_saturates() {
    let mut value = i32::MAX;
    let mut big_salt = 0;
    ResourceManager::apply_safe_attribute_change(&mut value, 1, &mut big_salt);
    assert_eq!((value, big_salt), (i32::MAX, 0));
}

#[test]
fn safe_change_negative_overflow_becomes_debt() {
    let mut value = -5;
    let mut big_salt = 0;
    ResourceManager::apply_safe_attribute_change(&mut value, i32::MIN, &mut big_salt);
    assert_eq!((value, big_salt), (0, i32::MAX));
}

#[test]
fn safe_change_sum_at_exact_i32_min() {
    // checked sum lands exactly on i32::MIN: the full magnitude 2^31 is
    // added to the debt, saturating only at the i32 bound
    let mut value = -2147483643;
    let mut big_salt = -10;
    ResourceManager::apply_safe_attribute_change(&mut value, -5, &mut big_salt);
    assert_eq!((value, big_salt), (0, 2147483638));

    let mut value2 = -2147483643;
    let mut big_salt2 = 0;
    ResourceManager::apply_safe_attribute_change(&mut value2, -5, &mut big_salt2);
    assert_eq!((value2, big_salt2), (0, i32::MAX));
}

#[test]
fn safe_change_ordinary_add() {
    let mut value = 7;
    let mut big_salt = 3;
    ResourceManager::apply_safe_attribute_change(&mut value, 5, &mut big_salt);
    assert_eq!((value, big_salt), (12, 3));
}

#[test]
fn convert_fast_path_leaves_state() {
    let mut p = player(10, 1, 1, 1);
    assert!(ResourceManager::convert_resources(&mut p, 4).is_ok());
    assert_eq!(p, player(10, 1, 1, 1));
}

#[test]
fn convert_hp_deep_underflow_becomes_big_salt() {
    let mut p = player(i32::MIN, 1, 1, 1);
    assert!(ResourceManager::convert_resources(&mut p, 1).is_ok());
    assert_eq!(p.hp, 1);
    assert_eq!(p.big_salt, 1);
    // one unit of hard debt charged at 65,536 and then grown by salt / 1 + 1
    assert_eq!(p.salt, 65536 + 65537);
}

#[test]
fn convert_hp_shortfall_becomes_salt() {
    let mut p = player(-9, 1, 1, 1);
    assert!(ResourceManager::convert_resources(&mut p, 2).is_ok());
    assert_eq!(p.hp, 1);
    assert_eq!(p.big_salt, 0);
    // shortfall 10, then passive growth 10 / 2 + 1
    assert_eq!(p.salt, 16);
}

#[test]
fn convert_big_salt_with_large_salt_overflows() {
    let mut p = player(10, 1, 1, 1);
    p.salt = i32::MAX - 10;
    p.big_salt = 1;
    let before = p;
    assert_eq!(ResourceManager::convert_resources(&mut p, 2), Err(GameError::Overflow));
    // hp was positive, so the failing charge is the first step reached and
    // the player is left unchanged
    assert_eq!(p, before);
}

#[test]
fn convert_error_keeps_completed_steps() {
    // the hp step succeeds, the big-salt charge fails: the hp normalization
    // stays applied
    let mut p = player(-9, 1, 1, 1);
    p.big_salt = i32::MAX;
    assert_eq!(ResourceManager::convert_resources_slow_path(&mut p, 2), Err(GameError::Overflow));
    assert_eq!(p.hp, 1);
    assert_eq!(p.salt, 10);
    assert_eq!(p.big_salt, i32::MAX);
}

#[test]
fn convert_salt_growth_overflows() {
    let mut p = player(10, 1, 1, 1);
    p.salt = i32::MAX;
    assert_eq!(ResourceManager::convert_resources(&mut p, 1), Err(GameError::Overflow));
}

fn levelup_config(levelup_desc: Vec<LevelUp>, minor_desc: Vec<MinorDesc>) -> GameConfig {
    GameConfig {
        major_adj: vec![vec![], vec![0]],
        major_minor_adj: vec![vec![], vec![]],
        major_desc: vec![MajorDesc::Delta(vec![]), MajorDesc::Delta(vec![])],
        minor_desc,
        enemy_data: vec![],
        init_stat: player(100, 1, 1, 1),
        levelup_desc,
    }
}

#[test]
fn level_loop_stops_at_short_table() {
    // both entries are affordable forever; the loop must stop at the table end
    let config = levelup_config(
        vec![
            LevelUp { minor: 9, need: 0, clear: false },
            LevelUp { minor: 9, need: 0, clear: false },
        ],
        vec![],
    );
    let mut p = player(50, 1, 1, 1);
    process(&mut p, &config);
    assert_eq!(p.lv, 2);
    assert_eq!(p.exp, 0);
}

#[test]
fn level_consumes_exp_and_applies_minor() {
    let config = levelup_config(
        vec![LevelUp { minor: 0, need: 5, clear: true }],
        vec![MinorDesc { atk: 1, def: 2, hp: 3, mdef: 4 }],
    );
    let mut p = player(50, 1, 1, 1);
    p.exp = 9;
    process(&mut p, &config);
    assert_eq!(p.lv, 1);
    assert_eq!(p.exp, 4);
    assert_eq!((p.atk, p.def, p.hp, p.mdef), (2, 3, 53, 5));
}

#[test]
fn level_stalls_below_need() {
    let config = levelup_config(vec![LevelUp { minor: 0, need: 5, clear: true }], vec![]);
    let mut p = player(50, 1, 1, 1);
    p.exp = 4;
    process(&mut p, &config);
    assert_eq!(p.lv, 0);
    assert_eq!(p.exp, 4);
}

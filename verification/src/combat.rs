//! Combat calculator: a pure function from a `(player, enemy)` pair to the
//! damage dealt to the player and the penalty added to `big_salt`.

use vstd::prelude::*;
use crate::arith::{clip_i32, sat_add_i32, sat_mul_i32, sat_sub_i32};
use crate::model::{Enemy, PlayerState};

verus! {

/// Damage of the low-attack path: the player's attack does not exceed the
/// enemy's defence, so the fight is lost slowly and expensively.
pub open spec fn spec_damage_low_attack(p: PlayerState, e: Enemy) -> (int, int) {
    (clip_i32(clip_i32(e.def - p.atk) * 256), 2)
}

/// Damage and penalty of a battle, as an unbounded-integer pair whose parts
/// both lie in the `i32` range.
///
/// The low-attack path applies when `p.atk <= e.def`. On the normal path the
/// number of enemy strikes is derived from how many rounds the enemy survives,
/// and the total is clamped to `(i32::MAX, 1)` when it cannot be represented.
pub open spec fn spec_damage(p: PlayerState, e: Enemy) -> (int, int) {
    if p.atk <= e.def {
        spec_damage_low_attack(p, e)
    } else {
        let per = {
            let base = if e.solid {
                1int
            } else {
                clip_i32(p.atk - e.def)
            };
            if base < 1 {
                1int
            } else {
                base
            }
        };
        let n0 = clip_i32((e.hp - 1) / per);
        let n1 = if e.speedy {
            clip_i32(n0 + 1)
        } else {
            n0
        };
        let n = clip_i32(n1 * e.attimes);
        let per_e = {
            let base = if e.magic {
                e.atk as int
            } else {
                clip_i32(e.atk - p.def)
            };
            if base < 0 {
                0int
            } else {
                base
            }
        };
        let total = per_e * n;
        if i32::MIN <= total <= i32::MAX {
            let after_mdef = clip_i32(total - p.mdef);
            (if after_mdef < 0 {
                0int
            } else {
                after_mdef
            }, 0int)
        } else {
            (i32::MAX as int, 1int)
        }
    }
}

/// Combat calculation subsystem.
pub struct CombatCalculator {}

impl CombatCalculator {
    /// Damage and penalty from one battle; deterministic for all inputs.
    pub fn calculate_damage(player: &PlayerState, enemy: &Enemy) -> (r: (i32, i32))
        ensures
            (r.0 as int, r.1 as int) == spec_damage(*player, *enemy),
    {
        if player.atk <= enemy.def {
            return Self::calculate_damage_low_attack(player, enemy);
        }
        let base = if enemy.solid {
            1i32
        } else {
            sat_sub_i32(player.atk, enemy.def)
        };
        let per: i32 = if base < 1 {
            1
        } else {
            base
        };
        let num: i64 = enemy.hp as i64 - 1;
        proof {
            let nn = num as int;
            let pp = per as int;
            let q = nn / pp;
            let r = nn % pp;
            vstd::arithmetic::div_mod::lemma_fundamental_div_mod(nn, pp);
            assert(-0x1_0000_0000_0000 <= q <= 0x1_0000_0000_0000) by (nonlinear_arith)
                requires
                    nn == pp * q + r,
                    0 <= r < pp,
                    1 <= pp <= 0x7fff_ffff,
                    -0x8000_0001 <= nn <= 0x7fff_fffe,
            ;
        }
        let n0: i32 = match num.checked_div_euclid(per as i64) {
            Some(q) => {
                if q < i32::MIN as i64 {
                    i32::MIN
                } else if q > i32::MAX as i64 {
                    i32::MAX
                } else {
                    q as i32
                }
            },
            None => unreached(),
        };
        let n1 = if enemy.speedy {
            sat_add_i32(n0, 1)
        } else {
            n0
        };
        let n = sat_mul_i32(n1, enemy.attimes);
        let base_e = if enemy.magic {
            enemy.atk
        } else {
            sat_sub_i32(enemy.atk, player.def)
        };
        let per_e: i32 = if base_e < 0 {
            0
        } else {
            base_e
        };
        match per_e.checked_mul(n) {
            Some(total) => {
                let after_mdef = sat_sub_i32(total, player.mdef);
                let dmg = if after_mdef < 0 {
                    0
                } else {
                    after_mdef
                };
                (dmg, 0)
            },
            None => Self::calculate_damage_overflow(),
        }
    }

    /// The losing branch taken when the player cannot pierce the enemy's
    /// defence.
    pub fn calculate_damage_low_attack(player: &PlayerState, enemy: &Enemy) -> (r: (i32, i32))
        ensures
            (r.0 as int, r.1 as int) == spec_damage_low_attack(*player, *enemy),
    {
        let diff = sat_sub_i32(enemy.def, player.atk);
        (sat_mul_i32(diff, 256), 2)
    }

    /// The clamped result returned when the damage total cannot be
    /// represented in an `i32`.
    pub fn calculate_damage_overflow() -> (r: (i32, i32))
        ensures
            r.0 == i32::MAX,
            r.1 == 1,
    {
        (i32::MAX, 1)
    }
}

/// Combat overflow clamp: an enemy with maximal hp, strike multiplier and
/// magic attack deals the clamped damage `i32::MAX` with penalty 1 to every
/// player whose attack pierces its defence — except when the per-round
/// damage itself saturates (`p.atk - e.def >= i32::MAX` on a non-solid
/// enemy), where the enemy falls in zero rounds and no damage returns.
pub proof fn lemma_combat_overflow_clamp(p: PlayerState, e: Enemy)
    requires
        e.hp == i32::MAX,
        e.attimes == i32::MAX,
        e.magic,
        e.atk == i32::MAX,
        p.atk > e.def,
        e.solid || p.atk - e.def < i32::MAX,
    ensures
        spec_damage(p, e) == (i32::MAX as int, 1int),
{
    let per = {
        let base = if e.solid {
            1int
        } else {
            clip_i32(p.atk - e.def)
        };
        if base < 1 {
            1int
        } else {
            base
        }
    };
    assert(1 <= per <= i32::MAX - 1);
    let x = e.hp - 1;
    let q = x / per;
    let r = x % per;
    vstd::arithmetic::div_mod::lemma_fundamental_div_mod(x, per);
    assert(1 <= q <= x) by (nonlinear_arith)
        requires
            x == per * q + r,
            0 <= r < per,
            1 <= per <= x,
            x == 0x7ffffffe,
    ;
    let n1 = if e.speedy {
        clip_i32(q + 1)
    } else {
        q
    };
    assert(1 <= n1 <= i32::MAX);
    assert(n1 * (i32::MAX as int) >= i32::MAX) by (nonlinear_arith)
        requires
            1 <= n1,
    ;
    assert((i32::MAX as int) * (i32::MAX as int) > i32::MAX) by (nonlinear_arith);
}

/// Battle outcome applied to the player: hp drops by the damage, `big_salt`
/// grows by the penalty, and the enemy's experience is collected, all
/// saturating.
pub open spec fn spec_battle(p: PlayerState, e: Enemy) -> PlayerState {
    let (dmg, pen) = spec_damage(p, e);
    PlayerState {
        hp: clip_i32(p.hp - dmg) as i32,
        big_salt: clip_i32(p.big_salt + pen) as i32,
        exp: clip_i32(p.exp + e.exp) as i32,
        ..p
    }
}

impl PlayerState {
    /// Fight one enemy and absorb damage, penalty and experience.
    pub fn battle_enemy(&mut self, enemy: &Enemy)
        ensures
            *final(self) == spec_battle(*old(self), *enemy),
    {
        let (damage, penalty) = CombatCalculator::calculate_damage(self, enemy);
        self.hp = sat_sub_i32(self.hp, damage);
        self.big_salt = sat_add_i32(self.big_salt, penalty);
        self.exp = sat_add_i32(self.exp, enemy.exp);
    }
}

} // verus!

//! Resource manager: post-step normalization of hp, `salt` and `big_salt`,
//! and the overflow-to-debt rule for the guarded attributes.

use vstd::prelude::*;
use crate::arith::{clip_i32, sat_add_i32, sat_mul_i32};
use crate::model::{GameError, PlayerState};

verus! {

/// Result of a guarded attribute change, as a `(value, big_salt)` pair of
/// unbounded integers both within the `i32` range.
///
/// A sum that stays non-negative is stored; a negative sum is zeroed and its
/// magnitude becomes `big_salt` debt; a sum past `i32::MAX` saturates; a sum
/// below `i32::MIN` is zeroed and the uncovered magnitude becomes debt.
pub open spec fn spec_safe_change(value: int, delta: int, big_salt: int) -> (int, int) {
    let sum = value + delta;
    if i32::MIN <= sum <= i32::MAX {
        if sum >= 0 {
            (sum, big_salt)
        } else {
            (0int, clip_i32(big_salt + (-sum)))
        }
    } else if delta > 0 {
        (i32::MAX as int, big_salt)
    } else {
        (0int, clip_i32(big_salt + clip_i32((-delta) - value)))
    }
}

/// Resource management helper.
pub struct ResourceManager {}

impl ResourceManager {
    /// Guarded change of `Atk`, `Def` or `Mdef`: the common, in-range and
    /// non-negative case is handled inline, everything else is delegated.
    pub fn apply_safe_attribute_change(value: &mut i32, delta: i32, big_salt: &mut i32)
        ensures
            ((*final(value)) as int, (*final(big_salt)) as int) == spec_safe_change(
                *old(value) as int,
                delta as int,
                *old(big_salt) as int,
            ),
    {
        match value.checked_add(delta) {
            Some(new_val) => {
                if new_val >= 0 {
                    *value = new_val;
                } else {
                    Self::apply_safe_attribute_change_cold(value, delta, big_salt);
                }
            },
            None => {
                Self::apply_safe_attribute_change_cold(value, delta, big_salt);
            },
        }
    }

    /// The unusual branches of the guarded change: negative sums and
    /// overflows, converted to `big_salt` debt or saturation.
    pub fn apply_safe_attribute_change_cold(value: &mut i32, delta: i32, big_salt: &mut i32)
        ensures
            ((*final(value)) as int, (*final(big_salt)) as int) == spec_safe_change(
                *old(value) as int,
                delta as int,
                *old(big_salt) as int,
            ),
    {
        match value.checked_add(delta) {
            Some(new_val) => {
                if new_val >= 0 {
                    *value = new_val;
                } else {
                    let grown: i64 = *big_salt as i64 + (-(new_val as i64));
                    *big_salt = if grown > i32::MAX as i64 {
                        i32::MAX
                    } else {
                        grown as i32
                    };
                    *value = 0;
                }
            },
            None => {
                if delta > 0 {
                    *value = i32::MAX;
                } else {
                    let uncovered64: i64 = -(delta as i64) - (*value as i64);
                    let uncovered: i32 = if uncovered64 > i32::MAX as i64 {
                        i32::MAX
                    } else if uncovered64 < i32::MIN as i64 {
                        i32::MIN
                    } else {
                        uncovered64 as i32
                    };
                    *big_salt = sat_add_i32(*big_salt, uncovered);
                    *value = 0;
                }
            },
        }
    }

    /// The hp-normalization step: catastrophic hp underflow becomes one unit
    /// of `big_salt`; an ordinary non-positive hp becomes `salt`.
    pub open spec fn spec_hp_step(p: PlayerState) -> Result<PlayerState, GameError> {
        if p.hp < -1073741824 {
            if p.big_salt + 1 > i32::MAX {
                Err(GameError::Overflow)
            } else {
                Ok(PlayerState { hp: 1, big_salt: (p.big_salt + 1) as i32, ..p })
            }
        } else if p.hp <= 0 {
            if p.salt + 1 - p.hp > i32::MAX {
                Err(GameError::Overflow)
            } else {
                Ok(PlayerState { hp: 1, salt: (p.salt + 1 - p.hp) as i32, ..p })
            }
        } else {
            Ok(p)
        }
    }

    /// The `big_salt` conversion step: positive hard debt is charged into
    /// `salt` at a 65,536x weight, without clearing `big_salt` itself.
    pub open spec fn spec_big_salt_step(p: PlayerState) -> Result<PlayerState, GameError> {
        if p.big_salt > 0 {
            let charge = clip_i32(p.big_salt * 65536);
            if p.salt + charge > i32::MAX {
                Err(GameError::Overflow)
            } else {
                Ok(PlayerState { salt: (p.salt + charge) as i32, ..p })
            }
        } else {
            Ok(p)
        }
    }

    /// The passive growth step: any positive `salt` strictly increases by its
    /// share of the node count plus one.
    pub open spec fn spec_salt_step(p: PlayerState, node_count: int) -> Result<
        PlayerState,
        GameError,
    > {
        if p.salt > 0 {
            let grown = p.salt + (p.salt as int) / node_count + 1;
            if grown > i32::MAX {
                Err(GameError::Overflow)
            } else {
                Ok(PlayerState { salt: grown as i32, ..p })
            }
        } else {
            Ok(p)
        }
    }

    /// The slow path of `spec_convert`: the three steps in order, aborting on
    /// the first overflow.
    pub open spec fn spec_convert_slow(p: PlayerState, node_count: int) -> Result<
        PlayerState,
        GameError,
    > {
        match Self::spec_hp_step(p) {
            Err(e) => Err(e),
            Ok(p1) => match Self::spec_big_salt_step(p1) {
                Err(e) => Err(e),
                Ok(p2) => Self::spec_salt_step(p2, node_count),
            },
        }
    }

    /// Post-step normalization of the player's resources, as a function of
    /// the incoming state and the major-node count.
    pub open spec fn spec_convert(p: PlayerState, node_count: int) -> Result<
        PlayerState,
        GameError,
    > {
        if p.hp > 0 && p.big_salt == 0 && p.salt == 0 {
            Ok(p)
        } else {
            Self::spec_convert_slow(p, node_count)
        }
    }

    /// The state the player is left in when conversion fails: the steps
    /// before the failing checked addition have applied, the failing one
    /// assigns nothing.
    pub open spec fn spec_convert_err_state(p: PlayerState) -> PlayerState {
        match Self::spec_hp_step(p) {
            Err(_) => p,
            Ok(p1) => match Self::spec_big_salt_step(p1) {
                Err(_) => p1,
                Ok(p2) => p2,
            },
        }
    }

    /// Normalize hp, `salt` and `big_salt` after a major-node step.
    pub fn convert_resources(player: &mut PlayerState, node_count: i32) -> (r: Result<
        (),
        GameError,
    >)
        requires
            1 <= node_count,
        ensures
            ({
                let s = Self::spec_convert(*old(player), node_count as int);
                &&& (r is Ok <==> s is Ok)
                &&& (r is Ok ==> Ok::<PlayerState, GameError>(*final(player)) == s)
                &&& (r is Err ==> r->Err_0 == s->Err_0)
                &&& (r is Err ==> *final(player) == Self::spec_convert_err_state(*old(player)))
            }),
    {
        if player.hp > 0 && player.big_salt == 0 && player.salt == 0 {
            return Ok(());
        }
        Self::convert_resources_slow_path(player, node_count)
    }

    /// The uncommon path of `convert_resources`, taken when hp is not
    /// positive or some debt is pending.
    pub fn convert_resources_slow_path(player: &mut PlayerState, node_count: i32) -> (r: Result<
        (),
        GameError,
    >)
        requires
            1 <= node_count,
        ensures
            ({
                let s = Self::spec_convert_slow(*old(player), node_count as int);
                &&& (r is Ok <==> s is Ok)
                &&& (r is Ok ==> Ok::<PlayerState, GameError>(*final(player)) == s)
                &&& (r is Err ==> r->Err_0 == s->Err_0)
                &&& (r is Err ==> *final(player) == Self::spec_convert_err_state(*old(player)))
            }),
    {
        if player.hp < -1073741824 {
            match player.big_salt.checked_add(1) {
                Some(b) => {
                    player.big_salt = b;
                    player.hp = 1;
                },
                None => {
                    return Err(GameError::Overflow);
                },
            }
        } else if player.hp <= 0 {
            let shortfall = 1 - player.hp;
            match player.salt.checked_add(shortfall) {
                Some(s) => {
                    player.salt = s;
                    player.hp = 1;
                },
                None => {
                    return Err(GameError::Overflow);
                },
            }
        }
        if player.big_salt > 0 {
            let charge = sat_mul_i32(player.big_salt, 65536);
            match player.salt.checked_add(charge) {
                Some(s) => {
                    player.salt = s;
                },
                None => {
                    return Err(GameError::Overflow);
                },
            }
        }
        if player.salt > 0 {
            let share = (player.salt as u64) / (node_count as u64);
            let grown = (player.salt as u64) + share + 1;
            if grown > i32::MAX as u64 {
                return Err(GameError::Overflow);
            }
            player.salt = grown as i32;
        }
        Ok(())
    }
}

impl PlayerState {
    /// Normalize this player's resources against the given node count.
    pub fn normalize_resources(&mut self, node_count: i32) -> (r: Result<(), GameError>)
        requires
            1 <= node_count,
        ensures
            ({
                let s = ResourceManager::spec_convert(*old(self), node_count as int);
                &&& (r is Ok <==> s is Ok)
                &&& (r is Ok ==> Ok::<PlayerState, GameError>(*final(self)) == s)
                &&& (r is Err ==> r->Err_0 == s->Err_0)
                &&& (r is Err ==> *final(self) == ResourceManager::spec_convert_err_state(
                    *old(self),
                ))
            }),
    {
        ResourceManager::convert_resources(self, node_count)
    }
}

} // verus!

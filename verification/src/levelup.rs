//! Level-up engine: consume experience and apply minor bonuses until the
//! level-up table runs out or the next entry is unaffordable.

use vstd::prelude::*;
use crate::arith::{clip_i32, sat_add_i32, sat_sub_i32};
use crate::model::{GameConfig, MinorDesc, PlayerState};

verus! {

/// A minor node's bonuses added to the player, each saturating.
pub open spec fn spec_minor_bonus(p: PlayerState, m: MinorDesc) -> PlayerState {
    PlayerState {
        atk: clip_i32(p.atk + m.atk) as i32,
        def: clip_i32(p.def + m.def) as i32,
        hp: clip_i32(p.hp + m.hp) as i32,
        mdef: clip_i32(p.mdef + m.mdef) as i32,
        ..p
    }
}

/// One level gained: the entry's cost is consumed when it is marked `clear`,
/// the level rises by one, and the entry's minor bonus applies when its id is
/// in range.
pub open spec fn spec_level_step(c: GameConfig, p: PlayerState) -> PlayerState
    recommends
        p.lv < c.levelup_desc@.len(),
{
    let req = c.levelup_desc@[p.lv as int];
    let p1 = if req.clear {
        PlayerState { exp: clip_i32(p.exp - req.need) as i32, ..p }
    } else {
        p
    };
    let p2 = PlayerState { lv: (p1.lv + 1) as u32, ..p1 };
    if (req.minor as int) < c.minor_desc@.len() {
        spec_minor_bonus(p2, c.minor_desc@[req.minor as int])
    } else {
        p2
    }
}

/// The fixed point of level progression: levels are gained while the table
/// has an entry at the current level whose cost the experience covers.
pub open spec fn spec_level_up(c: GameConfig, p: PlayerState) -> PlayerState
    decreases c.levelup_desc@.len() - p.lv as int,
        when c.levelup_desc@.len() <= u32::MAX as int
{
    if p.lv < c.levelup_desc@.len() && c.levelup_desc@[p.lv as int].need <= p.exp {
        spec_level_up(c, spec_level_step(c, p))
    } else {
        p
    }
}

impl PlayerState {
    /// Add a minor node's bonuses to this player.
    pub fn apply_minor_bonuses(&mut self, minor_desc: &MinorDesc)
        ensures
            *final(self) == spec_minor_bonus(*old(self), *minor_desc),
    {
        if minor_desc.atk != 0 {
            self.atk = sat_add_i32(self.atk, minor_desc.atk);
        }
        if minor_desc.def != 0 {
            self.def = sat_add_i32(self.def, minor_desc.def);
        }
        if minor_desc.hp != 0 {
            self.hp = sat_add_i32(self.hp, minor_desc.hp);
        }
        if minor_desc.mdef != 0 {
            self.mdef = sat_add_i32(self.mdef, minor_desc.mdef);
        }
    }

    /// Run level progression for this player against the configuration.
    pub fn handle_level_progression(&mut self, config: &GameConfig)
        requires
            config.levelup_desc@.len() <= u32::MAX as int,
        ensures
            *final(self) == spec_level_up(*config, *old(self)),
    {
        process(self, config);
    }
}

/// Run the level-progression loop until it stalls.
pub fn process(player: &mut PlayerState, config: &GameConfig)
    requires
        config.levelup_desc@.len() <= u32::MAX as int,
    ensures
        *final(player) == spec_level_up(*config, *old(player)),
{
    while (player.lv as usize) < config.levelup_desc.len() && config.levelup_desc[player.lv
        as usize].need <= player.exp
        invariant
            config.levelup_desc@.len() <= u32::MAX as int,
            spec_level_up(*config, *player) == spec_level_up(*config, *old(player)),
        decreases config.levelup_desc@.len() - player.lv as int,
    {
        process_level_up(player, config);
    }
}

/// Gain exactly one level: consume the entry's cost when it is marked
/// `clear`, raise the level, and apply the entry's minor bonus.
fn process_level_up(player: &mut PlayerState, config: &GameConfig)
    requires
        config.levelup_desc@.len() <= u32::MAX as int,
        old(player).lv < config.levelup_desc@.len(),
    ensures
        *final(player) == spec_level_step(*config, *old(player)),
{
    let req = config.levelup_desc[player.lv as usize];
    if req.clear {
        player.exp = sat_sub_i32(player.exp, req.need);
    }
    player.lv = player.lv + 1;
    if (req.minor as usize) < config.minor_desc.len() {
        let bonus = config.minor_desc[req.minor as usize];
        player.apply_minor_bonuses(&bonus);
    }
}

} // verus!

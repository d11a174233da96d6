//! Simulator: per-node evaluation of a route against the configuration, with
//! completion tracking, effect application, minor unlocking, resource
//! normalization and level progression, fully pinned down by `spec_run_to`.

use vstd::prelude::*;
use crate::arith::{clip_i32, clip_u32, sat_add_i32};
use crate::combat::spec_battle;
use crate::levelup::{spec_level_up, spec_minor_bonus};
use crate::model::{AttrType, GameConfig, GameError, MajorDesc, PlayerState};
use crate::resources::{spec_safe_change, ResourceManager};

verus! {

/// Whether the completion vector marks `id` as completed; ids beyond the
/// vector count as not completed.
pub open spec fn is_completed(s: Seq<bool>, id: int) -> bool {
    0 <= id < s.len() && s[id]
}

/// The completion vector with `id` marked, ids beyond the vector ignored.
pub open spec fn spec_mark(s: Seq<bool>, id: int) -> Seq<bool> {
    if 0 <= id < s.len() {
        s.update(id, true)
    } else {
        s
    }
}

/// A major node can be executed when it is not the origin, exists in the
/// graph, and at least one of its prerequisites is completed.
pub open spec fn spec_can_execute(c: GameConfig, node: u32, majors: Seq<bool>) -> bool {
    &&& node != 0
    &&& (node as int) < c.major_adj@.len()
    &&& exists|k: int|
        0 <= k < c.major_adj@[node as int]@.len() && is_completed(
            majors,
            #[trigger] c.major_adj@[node as int]@[k] as int,
        )
}

/// One attribute delta applied to the player, dispatching on the attribute.
pub open spec fn spec_apply_delta(p: PlayerState, attr: AttrType, d: i32) -> PlayerState {
    match attr {
        AttrType::Hp => PlayerState { hp: clip_i32(p.hp + d) as i32, ..p },
        AttrType::Atk => {
            let (v, bs) = spec_safe_change(p.atk as int, d as int, p.big_salt as int);
            PlayerState { atk: v as i32, big_salt: bs as i32, ..p }
        },
        AttrType::Def => {
            let (v, bs) = spec_safe_change(p.def as int, d as int, p.big_salt as int);
            PlayerState { def: v as i32, big_salt: bs as i32, ..p }
        },
        AttrType::Mdef => {
            let (v, bs) = spec_safe_change(p.mdef as int, d as int, p.big_salt as int);
            PlayerState { mdef: v as i32, big_salt: bs as i32, ..p }
        },
        AttrType::Exp => PlayerState { exp: clip_i32(p.exp + d) as i32, ..p },
        AttrType::Lv => PlayerState { lv: clip_u32(p.lv + d) as u32, ..p },
        AttrType::Salt => PlayerState { salt: clip_i32(p.salt + d) as i32, ..p },
        AttrType::BigSalt => PlayerState { big_salt: clip_i32(p.big_salt + d) as i32, ..p },
    }
}

/// The deltas from position `i` on applied in order.
pub open spec fn spec_apply_deltas_from(p: PlayerState, ds: Seq<(AttrType, i32)>, i: int) -> PlayerState
    decreases ds.len() - i,
{
    if 0 <= i < ds.len() {
        spec_apply_deltas_from(spec_apply_delta(p, ds[i].0, ds[i].1), ds, i + 1)
    } else {
        p
    }
}

/// A whole delta list applied in order.
pub open spec fn spec_apply_deltas(p: PlayerState, ds: Seq<(AttrType, i32)>) -> PlayerState {
    spec_apply_deltas_from(p, ds, 0)
}

/// The effect of entering a major node: a battle or a delta list.
pub open spec fn spec_apply_effect(c: GameConfig, p: PlayerState, node: u32) -> PlayerState
    recommends
        c.wf(),
        (node as int) < c.major_desc@.len(),
{
    match c.major_desc@[node as int] {
        MajorDesc::Enemy(eid) => spec_battle(p, c.enemy_data@[eid as int]),
        MajorDesc::Delta(ds) => spec_apply_deltas(p, ds@),
    }
}

/// Minor unlocking from position `i` of the id list on: each not-yet-completed
/// id is marked and, when its reward exists, its bonus applied.
pub open spec fn spec_unlock_from(
    c: GameConfig,
    p: PlayerState,
    minors: Seq<bool>,
    ids: Seq<u32>,
    i: int,
) -> (PlayerState, Seq<bool>)
    decreases ids.len() - i,
{
    if 0 <= i < ids.len() {
        let m = ids[i] as int;
        if !is_completed(minors, m) {
            let minors2 = spec_mark(minors, m);
            let p2 = if m < c.minor_desc@.len() {
                spec_minor_bonus(p, c.minor_desc@[m])
            } else {
                p
            };
            spec_unlock_from(c, p2, minors2, ids, i + 1)
        } else {
            spec_unlock_from(c, p, minors, ids, i + 1)
        }
    } else {
        (p, minors)
    }
}

/// All minors adjacent to `node` unlocked in list order; nodes without an
/// adjacency list unlock nothing.
pub open spec fn spec_unlock_minors(
    c: GameConfig,
    p: PlayerState,
    minors: Seq<bool>,
    node: u32,
) -> (PlayerState, Seq<bool>) {
    if (node as int) < c.major_minor_adj@.len() {
        spec_unlock_from(c, p, minors, c.major_minor_adj@[node as int]@, 0)
    } else {
        (p, minors)
    }
}

/// Post-processing after a step: resource normalization against the node
/// count, then level progression.
pub open spec fn spec_post(c: GameConfig, p: PlayerState) -> Result<PlayerState, GameError> {
    match ResourceManager::spec_convert(p, c.major_adj@.len() as int) {
        Err(e) => Err(e),
        Ok(p2) => Ok(spec_level_up(c, p2)),
    }
}

/// The body of a step once the checks passed: effect, unlocks, post-processing.
pub open spec fn spec_process_node(
    c: GameConfig,
    p: PlayerState,
    minors: Seq<bool>,
    node: u32,
) -> Result<(PlayerState, Seq<bool>), GameError> {
    let p1 = spec_apply_effect(c, p, node);
    let t = spec_unlock_minors(c, p1, minors, node);
    match spec_post(c, t.0) {
        Err(e) => Err(e),
        Ok(p3) => Ok((p3, t.1)),
    }
}

/// One full step of the simulation at `node`: duplicate check, reachability
/// check, node processing, and completion marking.
pub open spec fn spec_step(
    c: GameConfig,
    p: PlayerState,
    majors: Seq<bool>,
    minors: Seq<bool>,
    node: u32,
) -> Result<(PlayerState, Seq<bool>, Seq<bool>), GameError> {
    if is_completed(majors, node as int) {
        Err(GameError::AlreadyVisited)
    } else if !spec_can_execute(c, node, majors) {
        Err(GameError::Unreachable)
    } else {
        match spec_process_node(c, p, minors, node) {
            Err(e) => Err(e),
            Ok(t) => Ok((t.0, spec_mark(majors, node as int), t.1)),
        }
    }
}

/// The major completion vector at the start: all false but the origin.
pub open spec fn spec_init_majors(c: GameConfig) -> Seq<bool> {
    Seq::new(c.major_desc@.len(), |i: int| i == 0)
}

/// The minor completion vector at the start: all false.
pub open spec fn spec_init_minors(c: GameConfig) -> Seq<bool> {
    Seq::new(c.minor_desc@.len(), |i: int| false)
}

/// The simulation state after the first `n` route elements, or the error of
/// the first failing step.
pub open spec fn spec_run_to(c: GameConfig, route: Seq<u32>, n: int) -> Result<
    (PlayerState, Seq<bool>, Seq<bool>),
    GameError,
>
    decreases n,
{
    if n <= 0 {
        Ok((c.init_stat, spec_init_majors(c), spec_init_minors(c)))
    } else {
        match spec_run_to(c, route, n - 1) {
            Err(e) => Err(e),
            Ok(t) => spec_step(c, t.0, t.1, t.2, route[n - 1]),
        }
    }
}

/// The final player state of a whole route, or the error of the first
/// failing step.
pub open spec fn spec_simulate(c: GameConfig, route: Seq<u32>) -> Result<PlayerState, GameError> {
    match spec_run_to(c, route, route.len() as int) {
        Err(e) => Err(e),
        Ok(t) => Ok(t.0),
    }
}

/// Once a prefix fails, every longer prefix reports the same error.
proof fn lemma_run_to_err(c: GameConfig, route: Seq<u32>, i: int, j: int)
    requires
        0 <= i <= j,
        spec_run_to(c, route, i) is Err,
    ensures
        spec_run_to(c, route, j) == spec_run_to(c, route, i),
    decreases j - i,
{
    if i < j {
        lemma_run_to_err(c, route, i, j - 1);
    }
}

/// Simulation is a pure function of its inputs: identical configurations and
/// routes yield identical results.
pub proof fn lemma_simulate_deterministic(
    c1: GameConfig,
    c2: GameConfig,
    r1: Seq<u32>,
    r2: Seq<u32>,
)
    requires
        c1 == c2,
        r1 == r2,
    ensures
        spec_simulate(c1, r1) == spec_simulate(c2, r2),
{
}

/// The major completion vector after the first `i` steps of a route whose
/// first `i` steps succeed.
pub open spec fn spec_majors_before(c: GameConfig, route: Seq<u32>, i: int) -> Seq<bool>
    recommends
        spec_run_to(c, route, i) is Ok,
{
    spec_run_to(c, route, i)->Ok_0.1
}

/// A successful step was neither a revisit nor unreachable, and it marks its
/// node while preserving every earlier completion and the vector's length.
proof fn lemma_step_props(
    c: GameConfig,
    p: PlayerState,
    majors: Seq<bool>,
    minors: Seq<bool>,
    node: u32,
)
    requires
        spec_step(c, p, majors, minors, node) is Ok,
    ensures
        !is_completed(majors, node as int),
        spec_can_execute(c, node, majors),
        spec_step(c, p, majors, minors, node)->Ok_0.1.len() == majors.len(),
        forall|x: int|
            is_completed(majors, x) ==> is_completed(
                spec_step(c, p, majors, minors, node)->Ok_0.1,
                x,
            ),
        (node as int) < majors.len() ==> is_completed(
            spec_step(c, p, majors, minors, node)->Ok_0.1,
            node as int,
        ),
{
    let after = spec_step(c, p, majors, minors, node)->Ok_0.1;
    assert(after == spec_mark(majors, node as int));
}

/// A successful longer prefix means every shorter prefix succeeded, with the
/// completion vector only growing along the way.
proof fn lemma_run_mono(c: GameConfig, route: Seq<u32>, i: int, j: int)
    requires
        0 <= i <= j,
        spec_run_to(c, route, j) is Ok,
    ensures
        spec_run_to(c, route, i) is Ok,
        spec_majors_before(c, route, i).len() == spec_majors_before(c, route, j).len(),
        forall|x: int|
            is_completed(spec_majors_before(c, route, i), x) ==> is_completed(
                spec_majors_before(c, route, j),
                x,
            ),
    decreases j - i,
{
    if i < j {
        let t = spec_run_to(c, route, j - 1);
        if t is Err {
            assert(spec_run_to(c, route, j) is Err);
        }
        lemma_step_props(c, t->Ok_0.0, t->Ok_0.1, t->Ok_0.2, route[j - 1]);
        lemma_run_mono(c, route, i, j - 1);
    }
}

/// Every route the simulator accepts visits each major node exactly once,
/// and each step has at least one completed prerequisite at the moment it is
/// processed.
pub proof fn lemma_accepted_route(c: GameConfig, route: Seq<u32>)
    requires
        c.wf(),
        spec_simulate(c, route) is Ok,
    ensures
        forall|i: int, j: int| 0 <= i < j < route.len() ==> route[i] != route[j],
        forall|i: int|
            0 <= i < route.len() ==> spec_can_execute(
                c,
                #[trigger] route[i],
                spec_majors_before(c, route, i),
            ),
{
    let n = route.len() as int;
    assert forall|i: int| 0 <= i < n implies spec_can_execute(
        c,
        #[trigger] route[i],
        spec_majors_before(c, route, i),
    ) by {
        lemma_run_mono(c, route, i + 1, n);
        let t = spec_run_to(c, route, i);
        if t is Err {
            assert(spec_run_to(c, route, i + 1) is Err);
        }
        lemma_step_props(c, t->Ok_0.0, t->Ok_0.1, t->Ok_0.2, route[i]);
    }
    assert forall|i: int, j: int| 0 <= i < j < n implies route[i] != route[j] by {
        lemma_run_mono(c, route, j + 1, n);
        let tj = spec_run_to(c, route, j);
        if tj is Err {
            assert(spec_run_to(c, route, j + 1) is Err);
        }
        lemma_step_props(c, tj->Ok_0.0, tj->Ok_0.1, tj->Ok_0.2, route[j]);
        let ti = spec_run_to(c, route, i);
        lemma_run_mono(c, route, i + 1, j);
        if ti is Err {
            assert(spec_run_to(c, route, i + 1) is Err);
        }
        lemma_step_props(c, ti->Ok_0.0, ti->Ok_0.1, ti->Ok_0.2, route[i]);
        lemma_run_mono(c, route, 0, i);
        assert(spec_majors_before(c, route, 0) == spec_init_majors(c));
        assert(spec_majors_before(c, route, i).len() == c.major_desc@.len());
        assert((route[i] as int) < c.major_adj@.len());
        assert(is_completed(spec_majors_before(c, route, i + 1), route[i] as int));
        assert(is_completed(spec_majors_before(c, route, j), route[i] as int));
        assert(!is_completed(spec_majors_before(c, route, j), route[j] as int));
    }
}

/// Player state together with the two completion vectors.
pub struct GameState {
    pub player: PlayerState,
    pub completed_majors: Vec<bool>,
    pub completed_minors: Vec<bool>,
}

impl GameState {
    /// Initial state: the seed player, the origin completed, no minors.
    pub fn new(config: &GameConfig) -> (s: GameState)
        requires
            config.wf(),
        ensures
            s.player == config.init_stat,
            s.completed_majors@ == spec_init_majors(*config),
            s.completed_minors@ == spec_init_minors(*config),
    {
        let node_count = config.major_desc.len();
        let mut completed_majors: Vec<bool> = Vec::new();
        completed_majors.push(true);
        let mut i: usize = 1;
        while i < node_count
            invariant
                1 <= i <= node_count || (node_count == 0 && i == 1),
                completed_majors@.len() == i,
                completed_majors@[0] == true,
                forall|j: int| 1 <= j < i ==> !completed_majors@[j],
            decreases node_count - i,
        {
            completed_majors.push(false);
            i = i + 1;
        }
        let completed_minors = make_false_vec(config.minor_desc.len());
        proof {
            assert(completed_majors@ =~= spec_init_majors(*config));
        }
        GameState {
            player: PlayerState::from_init_stats(&config.init_stat),
            completed_majors,
            completed_minors,
        }
    }

    /// Whether the major node is already completed.
    pub fn is_major_completed(&self, node: usize) -> (b: bool)
        ensures
            b == is_completed(self.completed_majors@, node as int),
    {
        node < self.completed_majors.len() && self.completed_majors[node]
    }

    /// Mark the major node completed; out-of-range ids are ignored.
    pub fn mark_major_completed(&mut self, node: usize)
        ensures
            final(self).completed_majors@ == spec_mark(old(self).completed_majors@, node as int),
            final(self).player == old(self).player,
            final(self).completed_minors == old(self).completed_minors,
    {
        if node < self.completed_majors.len() {
            self.completed_majors[node] = true;
        }
    }

    /// Whether the minor node is already completed.
    pub fn is_minor_completed(&self, node: usize) -> (b: bool)
        ensures
            b == is_completed(self.completed_minors@, node as int),
    {
        node < self.completed_minors.len() && self.completed_minors[node]
    }

    /// Mark the minor node completed; out-of-range ids are ignored.
    pub fn mark_minor_completed(&mut self, node: usize)
        ensures
            final(self).completed_minors@ == spec_mark(old(self).completed_minors@, node as int),
            final(self).player == old(self).player,
            final(self).completed_majors == old(self).completed_majors,
    {
        if node < self.completed_minors.len() {
            self.completed_minors[node] = true;
        }
    }
}

/// A vector of `n` false flags.
fn make_false_vec(n: usize) -> (v: Vec<bool>)
    ensures
        v@ == Seq::new(n as nat, |i: int| false),
{
    let mut v: Vec<bool> = Vec::new();
    let mut i: usize = 0;
    while i < n
        invariant
            i <= n,
            v@.len() == i,
            forall|j: int| 0 <= j < i ==> !v@[j],
        decreases n - i,
    {
        v.push(false);
        i = i + 1;
    }
    proof {
        assert(v@ =~= Seq::new(n as nat, |i: int| false));
    }
    v
}

impl PlayerState {
    /// Apply a delta list to this player, in list order.
    pub fn apply_attribute_changes(&mut self, attrs: &Vec<(AttrType, i32)>)
        ensures
            *final(self) == spec_apply_deltas(*old(self), attrs@),
    {
        let ghost orig = *self;
        let n = attrs.len();
        let mut i: usize = 0;
        while i < n
            invariant
                n == attrs@.len(),
                i <= n,
                spec_apply_deltas_from(*self, attrs@, i as int) == spec_apply_deltas(orig, attrs@),
            decreases n - i,
        {
            let ghost before = *self;
            let (attr, delta) = attrs[i];
            match attr {
                AttrType::Hp => {
                    self.hp = sat_add_i32(self.hp, delta);
                },
                AttrType::Atk => {
                    ResourceManager::apply_safe_attribute_change(
                        &mut self.atk,
                        delta,
                        &mut self.big_salt,
                    );
                },
                AttrType::Def => {
                    ResourceManager::apply_safe_attribute_change(
                        &mut self.def,
                        delta,
                        &mut self.big_salt,
                    );
                },
                AttrType::Mdef => {
                    ResourceManager::apply_safe_attribute_change(
                        &mut self.mdef,
                        delta,
                        &mut self.big_salt,
                    );
                },
                AttrType::Exp => {
                    self.exp = sat_add_i32(self.exp, delta);
                },
                AttrType::Lv => {
                    let widened = self.lv as i64 + delta as i64;
                    self.lv = if widened < 0 {
                        0
                    } else if widened > u32::MAX as i64 {
                        u32::MAX
                    } else {
                        widened as u32
                    };
                },
                AttrType::Salt => {
                    self.salt = sat_add_i32(self.salt, delta);
                },
                AttrType::BigSalt => {
                    self.big_salt = sat_add_i32(self.big_salt, delta);
                },
            }
            proof {
                assert(*self == spec_apply_delta(before, attr, delta));
            }
            i = i + 1;
        }
    }
}

/// Whether `node` can be executed given the completed majors.
pub fn can_execute_major(config: &GameConfig, node: u32, completed: &Vec<bool>) -> (b: bool)
    ensures
        b == spec_can_execute(*config, node, completed@),
{
    if node == 0 {
        return false;
    }
    let node_idx = node as usize;
    if node_idx >= config.major_adj.len() {
        return false;
    }
    let adjacent = &config.major_adj[node_idx];
    let n = adjacent.len();
    let mut k: usize = 0;
    while k < n
        invariant
            node != 0,
            (node as int) < config.major_adj@.len(),
            n == adjacent@.len(),
            adjacent@ == config.major_adj@[node as int]@,
            k <= n,
            forall|j: int|
                0 <= j < k ==> !is_completed(completed@, #[trigger] adjacent@[j] as int),
        decreases n - k,
    {
        let adj_node = adjacent[k];
        let adj_idx = adj_node as usize;
        if adj_idx < completed.len() && completed[adj_idx] {
            proof {
                assert(is_completed(completed@, config.major_adj@[node as int]@[k as int] as int));
            }
            return true;
        }
        k = k + 1;
    }
    false
}

/// Apply the effect of `node` to the player.
fn apply_major_effect(config: &GameConfig, state: &mut GameState, node: u32)
    requires
        config.wf(),
        (node as int) < config.major_desc@.len(),
    ensures
        final(state).player == spec_apply_effect(*config, old(state).player, node),
        final(state).completed_majors == old(state).completed_majors,
        final(state).completed_minors == old(state).completed_minors,
{
    match &config.major_desc[node as usize] {
        MajorDesc::Enemy(enemy_idx) => {
            proof {
                assert((*enemy_idx as int) < config.enemy_data@.len());
            }
            let enemy = config.enemy_data[*enemy_idx as usize];
            state.player.battle_enemy(&enemy);
        },
        MajorDesc::Delta(attrs) => {
            state.player.apply_attribute_changes(attrs);
        },
    }
}

/// Unlock the minors adjacent to `major_node`, in list order.
fn unlock_minor_nodes(config: &GameConfig, state: &mut GameState, major_node: u32)
    ensures
        ({
            let t = spec_unlock_minors(
                *config,
                old(state).player,
                old(state).completed_minors@,
                major_node,
            );
            &&& final(state).player == t.0
            &&& final(state).completed_minors@ == t.1
            &&& final(state).completed_majors == old(state).completed_majors
        }),
{
    let idx = major_node as usize;
    if idx >= config.major_minor_adj.len() {
        return;
    }
    let ghost orig_player = state.player;
    let ghost orig_minors = state.completed_minors@;
    let minor_nodes = &config.major_minor_adj[idx];
    let n = minor_nodes.len();
    let mut k: usize = 0;
    while k < n
        invariant
            n == minor_nodes@.len(),
            minor_nodes@ == config.major_minor_adj@[major_node as int]@,
            k <= n,
            spec_unlock_from(*config, state.player, state.completed_minors@, minor_nodes@, k as int)
                == spec_unlock_from(*config, orig_player, orig_minors, minor_nodes@, 0),
            state.completed_majors == old(state).completed_majors,
        decreases n - k,
    {
        let minor_idx = minor_nodes[k] as usize;
        if !state.is_minor_completed(minor_idx) {
            state.mark_minor_completed(minor_idx);
            if minor_idx < config.minor_desc.len() {
                let bonus = config.minor_desc[minor_idx];
                state.player.apply_minor_bonuses(&bonus);
            }
        }
        k = k + 1;
    }
}

/// Normalize resources and run level progression after a step.
fn post_process_state(config: &GameConfig, state: &mut GameState) -> (r: Result<(), GameError>)
    requires
        config.wf(),
    ensures
        ({
            let s = spec_post(*config, old(state).player);
            &&& (r is Ok <==> s is Ok)
            &&& (r is Ok ==> s == Ok::<PlayerState, GameError>(final(state).player))
            &&& (r is Ok ==> final(state).completed_majors == old(state).completed_majors
                && final(state).completed_minors == old(state).completed_minors)
            &&& (r is Err ==> r->Err_0 == s->Err_0)
        }),
{
    let node_count_usize = config.major_adj.len();
    let node_count = node_count_usize as i32;
    match state.player.normalize_resources(node_count) {
        Ok(()) => {},
        Err(e) => {
            return Err(e);
        },
    }
    state.player.handle_level_progression(config);
    Ok(())
}

/// Process a major node that passed the duplicate and reachability checks.
fn process_major_node(config: &GameConfig, state: &mut GameState, node: u32) -> (r: Result<
    (),
    GameError,
>)
    requires
        config.wf(),
        (node as int) < config.major_desc@.len(),
    ensures
        ({
            let s = spec_process_node(
                *config,
                old(state).player,
                old(state).completed_minors@,
                node,
            );
            &&& (r is Ok <==> s is Ok)
            &&& (r is Ok ==> s == Ok::<(PlayerState, Seq<bool>), GameError>(
                (final(state).player, final(state).completed_minors@),
            ))
            &&& (r is Ok ==> final(state).completed_majors == old(state).completed_majors)
            &&& (r is Err ==> r->Err_0 == s->Err_0)
        }),
{
    apply_major_effect(config, state, node);
    unlock_minor_nodes(config, state, node);
    post_process_state(config, state)
}

/// Execute one route element: the duplicate and reachability checks, the
/// node's processing, and completion marking.
fn execute_major_node(config: &GameConfig, state: &mut GameState, node: u32) -> (r: Result<
    (),
    GameError,
>)
    requires
        config.wf(),
    ensures
        ({
            let s = spec_step(
                *config,
                old(state).player,
                old(state).completed_majors@,
                old(state).completed_minors@,
                node,
            );
            &&& (r is Ok <==> s is Ok)
            &&& (r is Ok ==> s == Ok::<(PlayerState, Seq<bool>, Seq<bool>), GameError>(
                (final(state).player, final(state).completed_majors@, final(state).completed_minors@),
            ))
            &&& (r is Err ==> r->Err_0 == s->Err_0)
        }),
{
    let node_idx = node as usize;
    if state.is_major_completed(node_idx) {
        return Err(GameError::AlreadyVisited);
    }
    if !can_execute_major(config, node, &state.completed_majors) {
        return Err(GameError::Unreachable);
    }
    match process_major_node(config, state, node) {
        Ok(()) => {},
        Err(e) => {
            return Err(e);
        },
    }
    state.mark_major_completed(node_idx);
    Ok(())
}

/// Run the whole route against the configuration, returning the final player
/// state or the error of the first failing step.
pub fn simulate_game(config: &GameConfig, route: &Vec<u32>) -> (r: Result<PlayerState, GameError>)
    requires
        config.wf(),
    ensures
        r == spec_simulate(*config, route@),
{
    let mut state = GameState::new(config);
    let n = route.len();
    let mut i: usize = 0;
    while i < n
        invariant
            config.wf(),
            n == route@.len(),
            i <= n,
            spec_run_to(*config, route@, i as int) == Ok::<
                (PlayerState, Seq<bool>, Seq<bool>),
                GameError,
            >((state.player, state.completed_majors@, state.completed_minors@)),
        decreases n - i,
    {
        let node = route[i];
        match execute_major_node(config, &mut state, node) {
            Ok(()) => {},
            Err(e) => {
                proof {
                    lemma_run_to_err(*config, route@, i + 1, n as int);
                }
                return Err(e);
            },
        }
        i = i + 1;
    }
    Ok(state.player)
}

} // verus!

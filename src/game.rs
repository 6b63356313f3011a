use vstd::prelude::*;
use crate::advantage::{Advantage, bite_strength_of, pickup_value_of};
use crate::collision::{PlayerCollision, PlayerCollisionEventType};
use crate::player::Jump;
use crate::clock::SessionClock;
use crate::tilemap::{
    CollisionTiles,
    CompiledLevel,
    LevelError,
    LevelMap,
    MapDescription,
    SpawnRequest,
    TileSprite,
    compile,
    compile_error_of,
    collision_exact,
    sprites_exact,
    spawns_of_groups,
};

verus! {

/// Milliseconds of continuous enemy contact between two bites.
pub const HIT_INTERVAL_MS: u64 = 300;

/// The top-level state of a session. `Died` and `Won` are final.
#[derive(Clone, Copy, Debug, PartialEq, Eq, Structural)]
pub enum GameState {
    InGame,
    Died,
    Won,
}

/// Whether the player is touching an enemy.
#[derive(Clone, Copy, Debug, PartialEq, Eq, Structural, Default)]
pub struct Hit(pub bool);

/// When damage was last metered, in milliseconds of session time.
#[derive(Clone, Copy, Debug, PartialEq, Eq, Structural)]
pub struct HitTime(pub u64);

/// The player's health.
#[derive(Clone, Copy, Debug, PartialEq, Eq, Structural)]
pub struct Hp(pub u8);

/// What a registered entity is to the game rules.
#[derive(Clone, Copy, Debug, PartialEq, Eq, Structural)]
pub enum EntityKind {
    Enemy,
    Star,
    Goal,
}

/// An entity handle known to the game rules, with its kind.
#[derive(Clone, Copy, Debug, PartialEq, Eq, Structural)]
pub struct Registered {
    pub id: u64,
    pub kind: EntityKind,
}

/// What the engine must do after a player collision: despawn a pickup, and
/// load another level.
#[derive(Clone, Copy, Debug, PartialEq, Eq, Structural)]
pub struct CollisionOutcome {
    pub despawn: Option<u64>,
    pub change_map: Option<usize>,
}

/// The sprites to draw and the entities to create for a freshly loaded level.
pub struct LevelContent {
    pub sprites: Vec<TileSprite>,
    pub spawns: Vec<SpawnRequest>,
}

/// The shared state of a session, written only by the game rules.
pub struct GameWorld {
    pub state: GameState,
    pub hit: Hit,
    pub hit_time: HitTime,
    pub hp: Hp,
    pub jump: Jump,
    pub advantage: Advantage,
    /// Number of levels in the level set (at least one).
    pub level_count: usize,
    /// Whether reaching a goal loads the next level instead of winning.
    pub advance_on_goal: bool,
    pub map: LevelMap,
    pub collision: CollisionTiles,
    pub entities: Vec<Registered>,
}

/// The kind of the first registered entry with handle `id`, if any.
pub open spec fn kind_in(entities: Seq<Registered>, id: u64) -> Option<EntityKind>
    decreases entities.len(),
{
    if entities.len() == 0 {
        None
    } else if entities[0].id == id {
        Some(entities[0].kind)
    } else {
        kind_in(entities.drop_first(), id)
    }
}

/// Keeps the entries whose handle is not `id`.
pub open spec fn other_than(id: u64) -> spec_fn(Registered) -> bool {
    |e: Registered| e.id != id
}

pub open spec fn is_registered(entities: Seq<Registered>, id: u64) -> bool {
    exists|i: int| 0 <= i < entities.len() && #[trigger] entities[i].id == id
}

/// Health after one bite: lowered by the bite, never below zero.
pub open spec fn bitten(hp: u8, bite: u8) -> u8 {
    if hp > bite { (hp - bite) as u8 } else { 0 }
}

/// Health after one pickup, capped at the counter's largest value.
pub open spec fn healed(hp: u8, gain: u8) -> u8 {
    if hp + gain > u8::MAX { u8::MAX } else { (hp + gain) as u8 }
}

/// A bite is due at `now`: the game runs, the player touches an enemy, and a
/// full interval has passed since damage was last metered.
pub open spec fn bite_due(state: GameState, hit: bool, last: u64, now: u64) -> bool {
    state == GameState::InGame && hit && now >= last && now - last >= HIT_INTERVAL_MS
}

/// The session as the game rules see it (all but the collision grid).
pub struct GameView {
    pub state: GameState,
    pub hit: bool,
    pub hit_time: u64,
    pub hp: u8,
    pub jump: u8,
    pub advantage: Advantage,
    pub level_count: usize,
    pub advance_on_goal: bool,
    pub map: LevelMap,
    pub entities: Seq<Registered>,
}

impl View for GameWorld {
    type V = GameView;

    open spec fn view(&self) -> GameView {
        GameView {
            state: self.state,
            hit: self.hit.0,
            hit_time: self.hit_time.0,
            hp: self.hp.0,
            jump: self.jump.0,
            advantage: self.advantage,
            level_count: self.level_count,
            advance_on_goal: self.advance_on_goal,
            map: self.map,
            entities: self.entities@,
        }
    }
}

pub open spec fn no_outcome() -> CollisionOutcome {
    CollisionOutcome { despawn: None, change_map: None }
}

/// The index after `index` in a level set of `count` levels, wrapping round.
pub open spec fn next_level(index: usize, count: usize) -> usize {
    ((index + 1) % (count as int)) as usize
}

/// What one player collision at time `now` does to the session.
///
/// Nothing happens once the game is over. Otherwise a ground contact resets
/// the jump counter; touching an enemy starts being bitten (and restarts the
/// damage clock), leaving it stops; touching a pickup heals by the pickup
/// value and removes the pickup; touching the goal either asks for the next
/// level or wins the game.
pub open spec fn collision_step(v: GameView, c: PlayerCollision, now: u64) -> (GameView, CollisionOutcome) {
    if v.state != GameState::InGame {
        (v, no_outcome())
    } else {
        let v1 = GameView { jump: if c.ground_contact { 0 } else { v.jump }, ..v };
        let started = c.event_type == PlayerCollisionEventType::Started;
        match kind_in(v.entities, c.other) {
            Some(EntityKind::Enemy) => if started {
                (GameView { hit: true, hit_time: now, ..v1 }, no_outcome())
            } else {
                (GameView { hit: false, ..v1 }, no_outcome())
            },
            Some(EntityKind::Star) => if started {
                (
                    GameView {
                        hp: healed(v.hp, pickup_value_of(v.advantage)),
                        entities: v.entities.filter(other_than(c.other)),
                        ..v1
                    },
                    CollisionOutcome { despawn: Some(c.other), change_map: None },
                )
            } else {
                (v1, no_outcome())
            },
            Some(EntityKind::Goal) => if !started {
                (v1, no_outcome())
            } else if v.advance_on_goal {
                (v1, CollisionOutcome { despawn: None, change_map: Some(next_level(v.map.index, v.level_count)) })
            } else {
                (GameView { state: GameState::Won, ..v1 }, no_outcome())
            },
            None => (v1, no_outcome()),
        }
    }
}

/// What a tick's player collisions, handled in order, do to the session.
pub open spec fn collision_steps(v: GameView, cs: Seq<PlayerCollision>, now: u64) -> (GameView, Seq<CollisionOutcome>)
    decreases cs.len(),
{
    if cs.len() == 0 {
        (v, Seq::empty())
    } else {
        let (v1, outs) = collision_steps(v, cs.drop_last(), now);
        let (v2, out) = collision_step(v1, cs.last(), now);
        (v2, outs.push(out))
    }
}

/// What one damage check at time `now` does to the session: when a bite is
/// due, health drops by the bite strength (never below zero, and reaching
/// zero loses the game) and the damage clock restarts at `now`.
pub open spec fn check_hits_step(v: GameView, now: u64) -> GameView {
    let bite = bite_strength_of(v.advantage);
    if bite_due(v.state, v.hit, v.hit_time, now) {
        GameView {
            state: if v.hp > bite { GameState::InGame } else { GameState::Died },
            hit_time: now,
            hp: bitten(v.hp, bite),
            ..v
        }
    } else {
        v
    }
}

/// Damage is metered per interval: a check made before a full interval has
/// passed since the last metering leaves the session, and so health, as it was.
pub proof fn lemma_no_damage_within_interval(v: GameView, now: u64)
    requires
        now < v.hit_time || now - v.hit_time < HIT_INTERVAL_MS,
    ensures
        check_hits_step(v, now) == v,
        check_hits_step(v, now).hp == v.hp,
{
}

/// Under continuous contact, a check made a full interval after the last
/// metering bites exactly once: a second check less than an interval later
/// changes nothing.
pub proof fn lemma_one_bite_per_interval(v: GameView, t1: u64, t2: u64)
    requires
        v.state == GameState::InGame,
        v.hit,
        t1 >= v.hit_time,
        t1 - v.hit_time >= HIT_INTERVAL_MS,
        t1 <= t2,
        t2 - t1 < HIT_INTERVAL_MS,
    ensures
        check_hits_step(v, t1).hp == bitten(v.hp, bite_strength_of(v.advantage)),
        check_hits_step(v, t1).hit_time == t1,
        check_hits_step(check_hits_step(v, t1), t2) == check_hits_step(v, t1),
{
}

/// `Died` and `Won` are final: neither a collision nor a damage check leaves them.
pub proof fn lemma_terminal_states_are_final(v: GameView, c: PlayerCollision, now: u64)
    requires
        v.state != GameState::InGame,
    ensures
        collision_step(v, c, now) == (v, no_outcome()),
        check_hits_step(v, now) == v,
{
}

impl GameWorld {
    pub open spec fn wf(&self) -> bool {
        self.level_count > 0 && self.map.index < self.level_count
    }

    /// A session in play, with no level loaded yet.
    pub fn new(advantage: Advantage, hp: u8, level_count: usize, advance_on_goal: bool, now_ms: u64) -> (r: GameWorld)
        requires
            level_count > 0,
        ensures
            r.wf(),
            r.state == GameState::InGame,
            r.hit == Hit(false),
            r.hit_time == HitTime(now_ms),
            r.hp == Hp(hp),
            r.jump == Jump(0),
            r.advantage == advantage,
            r.level_count == level_count,
            r.advance_on_goal == advance_on_goal,
            r.map == (LevelMap { width: 0, height: 0, index: 0 }),
            r.entities@.len() == 0,
    {
        GameWorld {
            state: GameState::InGame,
            hit: Hit(false),
            hit_time: HitTime(now_ms),
            hp: Hp(hp),
            jump: Jump(0),
            advantage,
            level_count,
            advance_on_goal,
            map: LevelMap { width: 0, height: 0, index: 0 },
            collision: CollisionTiles::new(0, 0),
            entities: Vec::new(),
        }
    }

    /// Records a spawned entity's handle and kind.
    pub fn register(&mut self, id: u64, kind: EntityKind)
        ensures
            final(self)@ == (GameView { entities: old(self).entities@.push(Registered { id, kind }), ..old(self)@ }),
            final(self).collision == old(self).collision,
    {
        self.entities.push(Registered { id, kind });
    }

    /// The kind of a registered entity, or `None` for an unknown handle.
    pub fn kind_of(&self, id: u64) -> (r: Option<EntityKind>)
        ensures
            r == kind_in(self.entities@, id),
            r is None <==> !is_registered(self.entities@, id),
    {
        let mut i: usize = 0;
        assert(self.entities@.subrange(0, self.entities@.len() as int) =~= self.entities@);
        while i < self.entities.len()
            invariant
                i <= self.entities@.len(),
                kind_in(self.entities@, id) == kind_in(self.entities@.subrange(i as int, self.entities@.len() as int), id),
                forall|j: int| 0 <= j < i ==> #[trigger] self.entities@[j].id != id,
            decreases self.entities@.len() - i,
        {
            let ghost rest = self.entities@.subrange(i as int, self.entities@.len() as int);
            assert(rest.drop_first() =~= self.entities@.subrange(i as int + 1, self.entities@.len() as int));
            if self.entities[i].id == id {
                return Some(self.entities[i].kind);
            }
            i = i + 1;
        }
        assert(self.entities@.subrange(i as int, self.entities@.len() as int).len() == 0);
        None
    }

    /// Forgets every entry with handle `id`, keeping the others in order.
    pub fn unregister(&mut self, id: u64)
        ensures
            final(self)@ == (GameView { entities: old(self).entities@.filter(other_than(id)), ..old(self)@ }),
            !is_registered(final(self).entities@, id),
            final(self).collision == old(self).collision,
    {
        let ghost pred = other_than(id);
        let mut kept: Vec<Registered> = Vec::new();
        let mut i: usize = 0;
        while i < self.entities.len()
            invariant
                i <= self.entities@.len(),
                pred == other_than(id),
                kept@ == self.entities@.subrange(0, i as int).filter(pred),
            decreases self.entities@.len() - i,
        {
            let e = self.entities[i];
            let ghost before = kept@;
            if e.id != id {
                kept.push(e);
            }
            proof {
                let s = self.entities@.subrange(0, i as int + 1);
                assert(s.drop_last() =~= self.entities@.subrange(0, i as int));
                reveal(Seq::filter);
                assert(s.last() == e);
                assert(pred(e) == (e.id != id));
                assert(s.filter(pred) == if pred(e) { before.push(e) } else { before });
            }
            i = i + 1;
        }
        assert(self.entities@.subrange(0, i as int) =~= self.entities@);
        proof {
            let f = self.entities@.filter(pred);
            assert forall|j: int| 0 <= j < f.len() implies #[trigger] f[j].id != id by {
                self.entities@.lemma_filter_pred(pred, j);
            }
        }
        self.entities = kept;
    }

    /// Handles one player collision at time `now_ms` (see `collision_step`).
    pub fn handle_player_collision(&mut self, c: PlayerCollision, now_ms: u64) -> (r: CollisionOutcome)
        requires
            old(self).wf(),
        ensures
            final(self).wf(),
            (final(self)@, r) == collision_step(old(self)@, c, now_ms),
            final(self).collision == old(self).collision,
    {
        if self.state != GameState::InGame {
            return CollisionOutcome { despawn: None, change_map: None };
        }
        if c.ground_contact {
            self.jump = Jump(0);
        }
        let started = c.event_type == PlayerCollisionEventType::Started;
        match self.kind_of(c.other) {
            Some(EntityKind::Enemy) => {
                if started {
                    self.hit = Hit(true);
                    self.hit_time = HitTime(now_ms);
                } else {
                    self.hit = Hit(false);
                }
                CollisionOutcome { despawn: None, change_map: None }
            },
            Some(EntityKind::Star) => {
                if started {
                    let gain = self.advantage.pickup_value();
                    let hp = self.hp.0;
                    self.hp = Hp(if hp > u8::MAX - gain { u8::MAX } else { hp + gain });
                    self.unregister(c.other);
                    CollisionOutcome { despawn: Some(c.other), change_map: None }
                } else {
                    CollisionOutcome { despawn: None, change_map: None }
                }
            },
            Some(EntityKind::Goal) => {
                if !started {
                    CollisionOutcome { despawn: None, change_map: None }
                } else if self.advance_on_goal {
                    let next = (self.map.index + 1) % self.level_count;
                    CollisionOutcome { despawn: None, change_map: Some(next) }
                } else {
                    self.state = GameState::Won;
                    CollisionOutcome { despawn: None, change_map: None }
                }
            },
            None => CollisionOutcome { despawn: None, change_map: None },
        }
    }

    /// Handles a tick's player collisions in order (see `collision_steps`).
    pub fn handle_player_collisions(&mut self, cs: &Vec<PlayerCollision>, now_ms: u64) -> (r: Vec<CollisionOutcome>)
        requires
            old(self).wf(),
        ensures
            final(self).wf(),
            (final(self)@, r@) == collision_steps(old(self)@, cs@, now_ms),
            final(self).collision == old(self).collision,
    {
        let ghost start = self@;
        let mut outs: Vec<CollisionOutcome> = Vec::new();
        let mut i: usize = 0;
        while i < cs.len()
            invariant
                self.wf(),
                i <= cs@.len(),
                (self@, outs@) == collision_steps(start, cs@.subrange(0, i as int), now_ms),
                self.collision == old(self).collision,
            decreases cs@.len() - i,
        {
            assert(cs@.subrange(0, i as int + 1).drop_last() =~= cs@.subrange(0, i as int));
            let out = self.handle_player_collision(cs[i], now_ms);
            outs.push(out);
            i = i + 1;
        }
        assert(cs@.subrange(0, i as int) =~= cs@);
        outs
    }

    /// Meters damage at time `now_ms`: while the game runs and the player
    /// touches an enemy, once a full interval has passed since the last
    /// metering, health drops by the bite strength (never below zero, and
    /// reaching zero loses the game) and the clock restarts at `now_ms`.
    pub fn check_hits(&mut self, now_ms: u64)
        requires
            old(self).wf(),
        ensures
            final(self).wf(),
            final(self)@ == check_hits_step(old(self)@, now_ms),
            final(self).collision == old(self).collision,
    {
        if self.state == GameState::InGame && self.hit.0 && now_ms >= self.hit_time.0
            && now_ms - self.hit_time.0 >= HIT_INTERVAL_MS {
            let bite = self.advantage.bite_strength();
            if self.hp.0 > bite {
                self.hp = Hp(self.hp.0 - bite);
            } else {
                self.hp = Hp(0);
                self.state = GameState::Died;
            }
            self.hit_time = HitTime(now_ms);
        }
    }
    /// Tears the current level down, forgetting every registered entity and
    /// any enemy contact, then compiles `desc` as level `index` and makes its
    /// map and collision grid current. On success the sprites and spawn
    /// requests of the new level are returned for the engine to create; on
    /// failure the old map and grid stay, and the error is `compile`'s.
    pub fn change_map(&mut self, desc: &MapDescription, index: usize) -> (r: Result<LevelContent, LevelError>)
        requires
            old(self).wf(),
            index < old(self).level_count,
        ensures
            final(self).wf(),
            final(self).entities@.len() == 0,
            final(self).hit == Hit(false),
            final(self).state == old(self).state,
            final(self).hp == old(self).hp,
            final(self).hit_time == old(self).hit_time,
            final(self).jump == old(self).jump,
            final(self).advantage == old(self).advantage,
            final(self).level_count == old(self).level_count,
            final(self).advance_on_goal == old(self).advance_on_goal,
            r is Ok <==> compile_error_of(*desc) is None,
            r matches Err(e) ==> compile_error_of(*desc) == Some(e) && final(self).map == old(self).map
                && final(self).collision == old(self).collision,
            r matches Ok(content) ==> {
                &&& final(self).map == (LevelMap { width: desc.width as usize, height: desc.height as usize, index })
                &&& collision_exact(*desc, final(self).collision)
                &&& sprites_exact(*desc, content.sprites@)
                &&& content.spawns@ == spawns_of_groups(desc.height as int, desc.object_groups@)
            },
    {
        self.entities = Vec::new();
        self.hit = Hit(false);
        match compile(desc, index) {
            Ok(level) => {
                let CompiledLevel { map, collision, sprites, spawns } = level;
                self.map = map;
                self.collision = collision;
                Ok(LevelContent { sprites, spawns })
            },
            Err(e) => Err(e),
        }
    }

    /// Loads the first level of the level set (see `change_map`).
    pub fn load_initial_map(&mut self, desc: &MapDescription) -> (r: Result<LevelContent, LevelError>)
        requires
            old(self).wf(),
        ensures
            final(self).wf(),
            final(self).entities@.len() == 0,
            r is Ok <==> compile_error_of(*desc) is None,
            r matches Err(e) ==> compile_error_of(*desc) == Some(e),
            r matches Ok(content) ==> {
                &&& final(self).map == (LevelMap { width: desc.width as usize, height: desc.height as usize, index: 0 })
                &&& collision_exact(*desc, final(self).collision)
                &&& sprites_exact(*desc, content.sprites@)
                &&& content.spawns@ == spawns_of_groups(desc.height as int, desc.object_groups@)
            },
    {
        self.change_map(desc, 0)
    }
    /// Meters damage at the clock's current time (see `check_hits`).
    pub fn check_hits_now(&mut self, clock: &SessionClock) -> (now_ms: u64)
        requires
            old(self).wf(),
        ensures
            final(self).wf(),
            final(self)@ == check_hits_step(old(self)@, now_ms),
            final(self).collision == old(self).collision,
    {
        let now_ms = clock.now_ms();
        self.check_hits(now_ms);
        now_ms
    }
}

} // verus!

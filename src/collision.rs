use vstd::prelude::*;

verus! {

/// Up-axis component, in thousandths, from which a contact normal counts as ground.
pub const GROUND_NORMAL_MILLI: i32 = 900;

/// One side of a contact reported by the physics engine: the body's entity
/// handle and the up-axis components of its contact normals, in thousandths.
pub struct Contact {
    pub entity: u64,
    pub normals_up: Vec<i32>,
}

/// A raw contact signal: two bodies started or stopped touching, in no set order.
pub enum CollisionEvent {
    Started(Contact, Contact),
    Stopped(Contact, Contact),
}

#[derive(Clone, Copy, Debug, PartialEq, Eq, Structural)]
pub enum PlayerCollisionEventType {
    Started,
    Stopped,
}

/// A contact of the player with another body. `ground_contact` tells whether
/// one of the player's contact normals points (nearly) straight up.
#[derive(Clone, Copy, Debug, PartialEq, Eq, Structural)]
pub struct PlayerCollision {
    pub player: u64,
    pub other: u64,
    pub event_type: PlayerCollisionEventType,
    pub ground_contact: bool,
}

pub open spec fn touches_ground(c: Contact) -> bool {
    exists|i: int| 0 <= i < c.normals_up@.len() && #[trigger] c.normals_up@[i] >= GROUND_NORMAL_MILLI
}

pub open spec fn oriented(
    player_side: Contact,
    other_side: Contact,
    event_type: PlayerCollisionEventType,
) -> PlayerCollision {
    PlayerCollision {
        player: player_side.entity,
        other: other_side.entity,
        event_type,
        ground_contact: touches_ground(player_side),
    }
}

/// The player collision a raw event gives, with either side as the player's.
pub open spec fn player_collision_of(e: CollisionEvent, player: u64) -> Option<PlayerCollision> {
    let (a, b, t) = match e {
        CollisionEvent::Started(a, b) => (a, b, PlayerCollisionEventType::Started),
        CollisionEvent::Stopped(a, b) => (a, b, PlayerCollisionEventType::Stopped),
    };
    if a.entity == player {
        Some(oriented(a, b, t))
    } else if b.entity == player {
        Some(oriented(b, a, t))
    } else {
        None
    }
}

/// The player collisions of a list of raw events, in order.
pub open spec fn player_collisions(events: Seq<CollisionEvent>, player: u64) -> Seq<PlayerCollision>
    decreases events.len(),
{
    if events.len() == 0 {
        Seq::empty()
    } else {
        player_collisions(events.drop_last(), player) + match player_collision_of(events.last(), player) {
            Some(c) => seq![c],
            None => Seq::empty(),
        }
    }
}

/// Whether a contact has a normal pointing (nearly) straight up.
pub fn is_ground_contact(c: &Contact) -> (r: bool)
    ensures
        r == touches_ground(*c),
{
    let mut i: usize = 0;
    while i < c.normals_up.len()
        invariant
            i <= c.normals_up@.len(),
            forall|j: int| 0 <= j < i ==> #[trigger] c.normals_up@[j] < GROUND_NORMAL_MILLI,
        decreases c.normals_up@.len() - i,
    {
        if c.normals_up[i] >= GROUND_NORMAL_MILLI {
            return true;
        }
        i = i + 1;
    }
    false
}

/// The player collision of one raw event, if the player is one of its sides.
pub fn classify_event(e: &CollisionEvent, player: u64) -> (r: Option<PlayerCollision>)
    ensures
        r == player_collision_of(*e, player),
{
    let (a, b, t) = match e {
        CollisionEvent::Started(a, b) => (a, b, PlayerCollisionEventType::Started),
        CollisionEvent::Stopped(a, b) => (a, b, PlayerCollisionEventType::Stopped),
    };
    if a.entity == player {
        Some(
            PlayerCollision {
                player: a.entity,
                other: b.entity,
                event_type: t,
                ground_contact: is_ground_contact(a),
            },
        )
    } else if b.entity == player {
        Some(
            PlayerCollision {
                player: b.entity,
                other: a.entity,
                event_type: t,
                ground_contact: is_ground_contact(b),
            },
        )
    } else {
        None
    }
}

/// Turns one tick's raw contact events into player collisions, in order;
/// events that do not involve the player are dropped.
pub fn check_collisions(events: &Vec<CollisionEvent>, player: u64) -> (r: Vec<PlayerCollision>)
    ensures
        r@ == player_collisions(events@, player),
{
    let mut out: Vec<PlayerCollision> = Vec::new();
    let mut i: usize = 0;
    while i < events.len()
        invariant
            i <= events@.len(),
            out@ == player_collisions(events@.subrange(0, i as int), player),
        decreases events@.len() - i,
    {
        assert(events@.subrange(0, i as int + 1).drop_last() =~= events@.subrange(0, i as int));
        match classify_event(&events[i], player) {
            Some(c) => {
                out.push(c);
            },
            None => {},
        }
        i = i + 1;
    }
    assert(events@.subrange(0, i as int) =~= events@);
    out
}

} // verus!

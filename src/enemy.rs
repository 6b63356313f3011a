use vstd::prelude::*;
use crate::advantage::{Advantage, enemy_speed_of};

verus! {

/// How far an enemy patrols to either side of its spawn point.
pub const PATROL_RANGE: i64 = 70;
/// Vertical and horizontal reach within which an enemy turns to the player.
pub const SIGHT_RANGE: i64 = 70;
/// Horizontal reach within which an enemy that is biting the player shows its bite.
pub const BITE_RANGE: i64 = 50;

/// The way an enemy faces and moves.
#[derive(Clone, Copy, Debug, PartialEq, Eq, Structural)]
pub enum Direction {
    Left,
    Right,
}

/// The horizontal patrol bounds of one enemy.
#[derive(Clone, Copy, Debug, PartialEq, Eq, Structural)]
pub struct Borders {
    pub left: i64,
    pub right: i64,
}

/// The animation an enemy shows.
#[derive(Clone, Copy, Debug, PartialEq, Eq, Structural)]
pub enum EnemyAnimation {
    SwimLeft,
    SwimRight,
    BiteLeft,
    BiteRight,
}

/// A point in world space.
#[derive(Clone, Copy, Debug, PartialEq, Eq, Structural)]
pub struct Position {
    pub x: i64,
    pub y: i64,
}

/// One tick's decision for one enemy: its horizontal speed, its facing
/// afterwards, and the animation to switch to, if any.
#[derive(Clone, Copy, Debug, PartialEq, Eq, Structural)]
pub struct EnemyStep {
    pub velocity_x: i64,
    pub direction: Direction,
    pub animation: Option<EnemyAnimation>,
}

impl Borders {
    /// Patrol bounds around a spawn point.
    pub fn around(spawn_x: i64) -> (r: Borders)
        requires
            i64::MIN + PATROL_RANGE <= spawn_x <= i64::MAX - PATROL_RANGE,
        ensures
            r.left == spawn_x - PATROL_RANGE,
            r.right == spawn_x + PATROL_RANGE,
    {
        Borders { left: spawn_x - PATROL_RANGE, right: spawn_x + PATROL_RANGE }
    }
}

/// Facing and animation chosen from where the player is, if it is near.
pub open spec fn sight_choice(enemy: Position, player: Position, biting: bool) -> Option<(Direction, EnemyAnimation)> {
    let dy = player.y - enemy.y;
    let dx = player.x - enemy.x;
    if -SIGHT_RANGE < dy < SIGHT_RANGE {
        if biting && -BITE_RANGE <= dx <= 0 {
            Some((Direction::Left, EnemyAnimation::BiteLeft))
        } else if biting && 1 <= dx <= BITE_RANGE {
            Some((Direction::Right, EnemyAnimation::BiteRight))
        } else if -SIGHT_RANGE <= dx <= 0 {
            Some((Direction::Left, EnemyAnimation::SwimLeft))
        } else if 1 <= dx <= SIGHT_RANGE {
            Some((Direction::Right, EnemyAnimation::SwimRight))
        } else {
            None
        }
    } else {
        None
    }
}

/// Facing forced by the patrol bounds, if the enemy has reached one.
pub open spec fn border_choice(enemy: Position, borders: Borders) -> Option<(Direction, EnemyAnimation)> {
    if enemy.x <= borders.left {
        Some((Direction::Right, EnemyAnimation::SwimRight))
    } else if enemy.x >= borders.right {
        Some((Direction::Left, EnemyAnimation::SwimLeft))
    } else {
        None
    }
}

pub open spec fn enemy_step_of(
    enemy: Position,
    direction: Direction,
    borders: Borders,
    player: Position,
    biting: bool,
    adv: Advantage,
) -> EnemyStep {
    let speed = enemy_speed_of(adv);
    let choice = match border_choice(enemy, borders) {
        Some(c) => Some(c),
        None => sight_choice(enemy, player, biting),
    };
    EnemyStep {
        velocity_x: if direction == Direction::Left { (-speed) as i64 } else { speed },
        direction: match choice {
            Some(c) => c.0,
            None => direction,
        },
        animation: match choice {
            Some(c) => Some(c.1),
            None => None,
        },
    }
}

/// Facing and animation from the player's position, if the player is near.
fn look_at_player(enemy: Position, player: Position, biting: bool) -> (r: Option<(Direction, EnemyAnimation)>)
    ensures
        r == sight_choice(enemy, player, biting),
{
    let dy = player.y as i128 - enemy.y as i128;
    let dx = player.x as i128 - enemy.x as i128;
    let sight = SIGHT_RANGE as i128;
    let bite = BITE_RANGE as i128;
    if -sight < dy && dy < sight {
        if biting && -bite <= dx && dx <= 0 {
            Some((Direction::Left, EnemyAnimation::BiteLeft))
        } else if biting && 1 <= dx && dx <= bite {
            Some((Direction::Right, EnemyAnimation::BiteRight))
        } else if -sight <= dx && dx <= 0 {
            Some((Direction::Left, EnemyAnimation::SwimLeft))
        } else if 1 <= dx && dx <= sight {
            Some((Direction::Right, EnemyAnimation::SwimRight))
        } else {
            None
        }
    } else {
        None
    }
}

/// One patrol tick of an enemy. It moves at the advantage's enemy speed the
/// way it faced at the start of the tick. Near the player (within the sight
/// range on both axes) it turns towards the player, showing its bite when the
/// player is being bitten and within bite range. On reaching a patrol bound it
/// turns back, whatever the player's position.
pub fn enemy_move(
    enemy: Position,
    direction: Direction,
    borders: Borders,
    player: Position,
    biting: bool,
    adv: &Advantage,
) -> (r: EnemyStep)
    ensures
        r == enemy_step_of(enemy, direction, borders, player, biting, *adv),
{
    let speed = adv.enemy_speed();
    let velocity_x = match direction {
        Direction::Left => -speed,
        Direction::Right => speed,
    };
    let choice = if enemy.x <= borders.left {
        Some((Direction::Right, EnemyAnimation::SwimRight))
    } else if enemy.x >= borders.right {
        Some((Direction::Left, EnemyAnimation::SwimLeft))
    } else {
        look_at_player(enemy, player, biting)
    };
    match choice {
        Some((d, a)) => EnemyStep { velocity_x, direction: d, animation: Some(a) },
        None => EnemyStep { velocity_x, direction, animation: None },
    }
}

/// An enemy that reaches its right bound while facing right turns left on
/// the same tick, whatever the player's position; likewise at the left bound.
pub proof fn lemma_border_turns_back(
    enemy: Position,
    direction: Direction,
    borders: Borders,
    player: Position,
    biting: bool,
    adv: Advantage,
)
    requires
        borders.left < borders.right,
    ensures
        enemy.x >= borders.right ==> enemy_step_of(enemy, direction, borders, player, biting, adv).direction
            == Direction::Left,
        enemy.x <= borders.left ==> enemy_step_of(enemy, direction, borders, player, biting, adv).direction
            == Direction::Right,
{
}

} // verus!

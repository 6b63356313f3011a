use vstd::prelude::*;
use crate::advantage::{Advantage, max_jumps_of};

verus! {

/// Upward speed given by a jump.
pub const JUMP_SPEED: i64 = 600;
/// Horizontal walking speed.
pub const WALK_SPEED: i64 = 200;
/// Downward speed while diving.
pub const DIVE_SPEED: i64 = 400;

/// Jumps made since the player last touched the ground.
#[derive(Clone, Copy, Debug, PartialEq, Eq, Structural, Default)]
pub struct Jump(pub u8);

/// The movement keys of one tick: jump was just pressed; left, right and
/// down are held.
#[derive(Clone, Copy, Debug, PartialEq, Eq, Structural)]
pub struct PlayerInput {
    pub jump_pressed: bool,
    pub left: bool,
    pub right: bool,
    pub down: bool,
}

/// What one tick of input does to the player: new horizontal and vertical
/// speeds where they change, and whether the walk animation plays.
#[derive(Clone, Copy, Debug, PartialEq, Eq, Structural)]
pub struct PlayerMotion {
    pub velocity_x: Option<i64>,
    pub velocity_y: Option<i64>,
    pub animate: bool,
}

pub open spec fn can_jump(jump: Jump, adv: Advantage) -> bool {
    jump.0 < max_jumps_of(adv)
}

pub open spec fn motion_of(input: PlayerInput, jump: Jump, adv: Advantage) -> PlayerMotion {
    let jumps = input.jump_pressed && can_jump(jump, adv);
    PlayerMotion {
        velocity_x: if input.right {
            Some(WALK_SPEED)
        } else if input.left {
            Some((-WALK_SPEED) as i64)
        } else {
            None
        },
        velocity_y: if input.down {
            Some((-DIVE_SPEED) as i64)
        } else if jumps {
            Some(JUMP_SPEED)
        } else {
            None
        },
        animate: (input.left || input.right) && jump.0 == 0,
    }
}

/// Applies one tick of movement keys. A jump is taken while fewer jumps than
/// the advantage allows have been made since the ground; the walk animation
/// plays only on the ground; right wins over left and diving over jumping.
pub fn player_move(input: PlayerInput, jump: &mut Jump, adv: &Advantage) -> (r: PlayerMotion)
    ensures
        r == motion_of(input, *old(jump), *adv),
        final(jump).0 == if input.jump_pressed && can_jump(*old(jump), *adv) {
            old(jump).0 + 1
        } else {
            old(jump).0 as int
        },
{
    let max_jumps = adv.max_jumps();
    let can = jump.0 < max_jumps;
    let grounded = jump.0 == 0;
    let mut velocity_x: Option<i64> = None;
    let mut velocity_y: Option<i64> = None;
    let mut animate = false;
    if input.jump_pressed && can {
        velocity_y = Some(JUMP_SPEED);
        jump.0 = jump.0 + 1;
    }
    if input.left {
        velocity_x = Some(-WALK_SPEED);
        if grounded {
            animate = true;
        }
    }
    if input.right {
        velocity_x = Some(WALK_SPEED);
        if grounded {
            animate = true;
        }
    }
    if input.down {
        velocity_y = Some(-DIVE_SPEED);
    }
    PlayerMotion { velocity_x, velocity_y, animate }
}

} // verus!

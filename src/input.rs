//! From the direction keys held in a frame to the force a player receives.
use vstd::prelude::*;

verus! {

/// Magnitude of the force that pushes a player along a held direction.
pub const SPEEDUP: u32 = 40;

/// Magnitude of the force that brakes a player when no direction is held.
pub const SLOWDOWN: u32 = 20;

/// Speed above which a player with no direction held is braked; at or below
/// it, dampening alone brings the player to rest.
pub const BRAKE_THRESHOLD: u32 = 1;

/// Which of the four direction keys are held during one frame.
#[derive(Clone, Copy, Debug, PartialEq, Eq, Structural)]
pub struct DirectionKeys {
    pub up: bool,
    pub down: bool,
    pub left: bool,
    pub right: bool,
}

/// A direction on the unit grid: each component is -1, 0 or 1.
#[derive(Clone, Copy, Debug, PartialEq, Eq, Structural)]
pub struct Direction {
    pub x: i8,
    pub y: i8,
}

/// One unit for a held key, none otherwise.
pub open spec fn key_value(held: bool) -> int {
    if held {
        1
    } else {
        0
    }
}

/// The direction the held keys point to: Right and Up count positive, Left
/// and Down negative, and two opposite keys cancel.
pub open spec fn held_direction(keys: DirectionKeys) -> Direction {
    Direction {
        x: (key_value(keys.right) - key_value(keys.left)) as i8,
        y: (key_value(keys.up) - key_value(keys.down)) as i8,
    }
}

impl Direction {
    /// Both components lie in -1..=1.
    pub open spec fn wf(self) -> bool {
        &&& -1 <= self.x <= 1
        &&& -1 <= self.y <= 1
    }

    /// Squared Euclidean length of the direction.
    pub open spec fn spec_length_squared(self) -> int {
        self.x * self.x + self.y * self.y
    }

    /// Whether no key contributes any movement.
    pub fn is_zero(&self) -> (r: bool)
        ensures
            r == (self.x == 0 && self.y == 0),
    {
        self.x == 0 && self.y == 0
    }

    /// Squared Euclidean length: 0 for no movement, 1 along an axis, 2 on a
    /// diagonal. Dividing by its square root makes the direction unit length.
    pub fn length_squared(&self) -> (r: u8)
        requires
            self.wf(),
        ensures
            r as int == self.spec_length_squared(),
            r <= 2,
    {
        let ax: u8 = if self.x == 0 { 0 } else { 1 };
        let ay: u8 = if self.y == 0 { 0 } else { 1 };
        proof {
            let (x, y) = (self.x as int, self.y as int);
            assert(x * x == ax && y * y == ay) by (nonlinear_arith)
                requires
                    -1 <= x <= 1,
                    -1 <= y <= 1,
                    ax == (if x == 0 { 0int } else { 1int }),
                    ay == (if y == 0 { 0int } else { 1int }),
            ;
        }
        ax + ay
    }
}

/// Folds the held keys into a grid direction.
pub fn direction_of(keys: DirectionKeys) -> (d: Direction)
    ensures
        d == held_direction(keys),
        d.wf(),
{
    let mut x: i8 = 0;
    let mut y: i8 = 0;
    if keys.up {
        y = y + 1;
    }
    if keys.down {
        y = y - 1;
    }
    if keys.left {
        x = x - 1;
    }
    if keys.right {
        x = x + 1;
    }
    Direction { x, y }
}

/// The force a player receives in one frame.
#[derive(Clone, Copy, Debug, PartialEq, Eq, Structural)]
pub enum PlayerForce {
    /// No force: the player coasts.
    Coast,
    /// A force of magnitude `SLOWDOWN` against the player's velocity.
    Brake,
    /// A force of magnitude `SPEEDUP` along the given direction, once it is
    /// made unit length.
    Push(Direction),
}

/// The force owed to a player, given the keys held this frame and whether
/// the player's speed exceeds `BRAKE_THRESHOLD`.
pub open spec fn spec_player_force(keys: DirectionKeys, above_threshold: bool) -> PlayerForce {
    let d = held_direction(keys);
    if d.x == 0 && d.y == 0 {
        if above_threshold {
            PlayerForce::Brake
        } else {
            PlayerForce::Coast
        }
    } else {
        PlayerForce::Push(d)
    }
}

/// Decides the force a player receives this frame: a push along the held
/// direction, or, with no direction held, a brake when the player is faster
/// than `BRAKE_THRESHOLD` and nothing otherwise. A push never carries the
/// zero direction, so making it unit length is always defined.
pub fn player_force(keys: DirectionKeys, above_threshold: bool) -> (f: PlayerForce)
    ensures
        f == spec_player_force(keys, above_threshold),
        f matches PlayerForce::Push(d) ==> d.wf() && d.spec_length_squared() > 0,
{
    let d = direction_of(keys);
    if d.is_zero() {
        if above_threshold {
            PlayerForce::Brake
        } else {
            PlayerForce::Coast
        }
    } else {
        proof {
            assert(d.spec_length_squared() > 0) by (nonlinear_arith)
                requires
                    d.x != 0 || d.y != 0,
            ;
        }
        PlayerForce::Push(d)
    }
}

} // verus!

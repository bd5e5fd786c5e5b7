use vstd::prelude::*;

use crate::config::{GRAVITY, GROUND_HEIGHT, JUMP_HEIGHT, PLAYER_HEIGHT, PLAYER_WIDTH, SCREEN_HEIGHT};
use crate::geometry::Rect;

verus! {

/// The player-controlled body. Its x never changes; y moves with `y_velocity`.
#[derive(Clone, Copy, Debug, PartialEq, Eq, Structural)]
pub struct Player {
    pub bounding_box: Rect,
    pub y_velocity: i32,
    pub is_dead: bool,
    /// Ticks since the last jump, held at 255 once it gets there.
    pub frames_falling: u8,
}

/// One tick of free fall, within the range of `i32`: gravity goes into the velocity,
/// then the velocity into y. `after` differs from `before` in y and velocity only.
pub open spec fn is_fall_step(before: Player, after: Player) -> bool {
    before.can_fall() && after == before.fallen()
}

impl Player {
    /// This player after one tick of free fall.
    pub open spec fn fallen(self) -> Player {
        Player {
            bounding_box: Rect {
                x: self.bounding_box.x,
                y: (self.bounding_box.y + self.y_velocity + GRAVITY) as i32,
                width: self.bounding_box.width,
                height: self.bounding_box.height,
            },
            y_velocity: (self.y_velocity + GRAVITY) as i32,
            is_dead: self.is_dead,
            frames_falling: self.frames_falling,
        }
    }

    /// A fresh player at (x, y), moving upwards with the jump velocity.
    pub fn new(x: i32, y: i32) -> (p: Player)
        ensures
            p.bounding_box == (Rect { x, y, width: PLAYER_WIDTH, height: PLAYER_HEIGHT }),
            p.y_velocity == JUMP_HEIGHT,
            !p.is_dead,
            p.frames_falling == 0,
    {
        Player {
            bounding_box: Rect::new(x, y, PLAYER_WIDTH, PLAYER_HEIGHT),
            y_velocity: JUMP_HEIGHT,
            is_dead: false,
            frames_falling: 0,
        }
    }

    /// The next velocity and the next y both fit in an `i32`.
    pub open spec fn can_fall(self) -> bool {
        &&& self.y_velocity + GRAVITY <= i32::MAX
        &&& i32::MIN <= self.bounding_box.y + self.y_velocity + GRAVITY <= i32::MAX
    }

    pub fn fits_next_fall(&self) -> (r: bool)
        ensures
            r == self.can_fall(),
    {
        let v: i64 = self.y_velocity as i64 + GRAVITY as i64;
        let y: i64 = self.bounding_box.y as i64 + v;
        v <= i32::MAX as i64 && i32::MIN as i64 <= y && y <= i32::MAX as i64
    }

    pub fn update(&mut self)
        requires
            old(self).can_fall(),
        ensures
            is_fall_step(*old(self), *final(self)),
    {
        self.y_velocity = self.y_velocity + GRAVITY;
        self.bounding_box.y = self.bounding_box.y + self.y_velocity;
    }

    /// A jump: the velocity becomes the jump velocity and the fall counter restarts.
    pub fn jump(&mut self)
        ensures
            final(self).y_velocity == JUMP_HEIGHT,
            final(self).frames_falling == 0,
            final(self).bounding_box == old(self).bounding_box,
            final(self).is_dead == old(self).is_dead,
    {
        self.y_velocity = JUMP_HEIGHT;
        self.frames_falling = 0;
    }

    /// The body has gone below the top of the ground band.
    pub open spec fn on_ground(self) -> bool {
        self.bounding_box.y > SCREEN_HEIGHT - GROUND_HEIGHT - self.bounding_box.height
    }

    pub fn touches_ground(&self) -> (r: bool)
        ensures
            r == self.on_ground(),
    {
        let limit: i64 = SCREEN_HEIGHT as i64 - GROUND_HEIGHT as i64 - self.bounding_box.height as i64;
        self.bounding_box.y as i64 > limit
    }

    /// Counts one more tick of falling, stopping at the counter's maximum.
    pub fn count_falling_frame(&mut self)
        ensures
            final(self).frames_falling == if old(self).frames_falling < u8::MAX {
                old(self).frames_falling + 1
            } else {
                u8::MAX as int
            },
            final(self).bounding_box == old(self).bounding_box,
            final(self).y_velocity == old(self).y_velocity,
            final(self).is_dead == old(self).is_dead,
    {
        if self.frames_falling < u8::MAX {
            self.frames_falling = self.frames_falling + 1;
        }
    }
}

/// The sum of `v0 + k * GRAVITY` for k from 1 to n: how far a body falling from
/// velocity `v0` moves in n ticks.
pub open spec fn fall_distance(v0: int, n: nat) -> int
    decreases n,
{
    if n == 0 {
        0
    } else {
        fall_distance(v0, (n - 1) as nat) + v0 + n * GRAVITY
    }
}

/// Free fall: along a run of ticks with no jump, after
/// n ticks the velocity is the starting one plus n times gravity, and y is the starting y
/// plus the sum of `v0 + k * GRAVITY` for k from 1 to n.
pub proof fn lemma_free_fall(states: Seq<Player>)
    requires
        states.len() >= 1,
        forall|k: int|
            1 <= k < states.len() ==> is_fall_step(states[k - 1], #[trigger] states[k]),
    ensures
        states.last().y_velocity == states[0].y_velocity + (states.len() - 1) * GRAVITY,
        states.last().bounding_box.y == states[0].bounding_box.y + fall_distance(
            states[0].y_velocity as int,
            (states.len() - 1) as nat,
        ),
    decreases states.len(),
{
    if states.len() > 1 {
        let prefix = states.drop_last();
        assert forall|k: int| 1 <= k < prefix.len() implies is_fall_step(
            prefix[k - 1],
            #[trigger] prefix[k],
        ) by {
            assert(states[k] == prefix[k]);
            assert(states[k - 1] == prefix[k - 1]);
        }
        lemma_free_fall(prefix);
        let n = states.len() - 1;
        assert(is_fall_step(states[n - 1], states[n]));
    }
}

} // verus!

use vstd::prelude::*;

use crate::config::{JUMP_HEIGHT, PLAYER_HEIGHT, PLAYER_WIDTH, PIPE_COUNT, PIPE_SPACING, PLAYER_SPAWN_X, PLAYER_SPAWN_Y, RECYCLE_X, SCREEN_WIDTH};
use crate::geometry::Rect;
use crate::pipe::Pipe;
use crate::player::Player;

verus! {

/// The player, the obstacles and the score, always taken together.
#[derive(Debug)]
pub struct World {
    pub player: Player,
    pub pipes: Vec<Pipe>,
    pub score: u32,
}

/// How many of `pipes` a body with box `body` scores on in one tick.
pub open spec fn scoring_count(pipes: Seq<Pipe>, body: Rect) -> nat
    decreases pipes.len(),
{
    if pipes.len() == 0 {
        0
    } else {
        scoring_count(pipes.drop_last(), body) + if pipes.last().scrolled().scores(body) {
            1nat
        } else {
            0nat
        }
    }
}

proof fn lemma_scoring_count_bound(pipes: Seq<Pipe>, body: Rect)
    ensures
        scoring_count(pipes, body) <= pipes.len(),
    decreases pipes.len(),
{
    if pipes.len() > 0 {
        lemma_scoring_count_bound(pipes.drop_last(), body);
    }
}

impl World {
    /// Every obstacle is well formed and right of the far-left threshold.
    pub open spec fn wf(self) -> bool {
        forall|i: int|
            0 <= i < self.pipes@.len() ==> {
                &&& #[trigger] self.pipes@[i].wf()
                &&& self.pipes@[i].bounding_box.x > RECYCLE_X
            }
    }

    /// One more tick cannot overflow the player's motion or the score.
    pub open spec fn can_tick(self) -> bool {
        &&& self.player.can_fall()
        &&& self.score + self.pipes@.len() <= u32::MAX
    }

    pub fn fits_next_tick(&self) -> (r: bool)
        ensures
            r == self.can_tick(),
    {
        self.player.fits_next_fall() && (self.pipes.len() as u64) <= (u32::MAX - self.score) as u64
    }

    /// The session's opening state: the player at its spawn point, and the obstacles
    /// evenly spaced from the middle of the screen with freshly drawn gaps.
    pub fn new() -> (w: World)
        ensures
            w.wf(),
            w.player.bounding_box == (Rect {
                x: PLAYER_SPAWN_X,
                y: PLAYER_SPAWN_Y,
                width: PLAYER_WIDTH,
                height: PLAYER_HEIGHT,
            }),
            w.player.y_velocity == JUMP_HEIGHT,
            !w.player.is_dead,
            w.player.frames_falling == 0,
            w.pipes@.len() == PIPE_COUNT,
            forall|i: int|
                0 <= i < PIPE_COUNT ==> {
                    &&& (#[trigger] w.pipes@[i]).bounding_box.x == SCREEN_WIDTH / 2 + i * PIPE_SPACING
                    &&& !w.pipes@[i].has_scored
                },
            w.score == 0,
    {
        let mut pipes: Vec<Pipe> = Vec::new();
        let mut i: usize = 0;
        while i < PIPE_COUNT
            invariant
                i <= PIPE_COUNT,
                pipes@.len() == i,
                forall|j: int|
                    0 <= j < i ==> {
                        &&& (#[trigger] pipes@[j]).wf()
                        &&& pipes@[j].bounding_box.x == SCREEN_WIDTH / 2 + j * PIPE_SPACING
                        &&& !pipes@[j].has_scored
                    },
            decreases PIPE_COUNT - i,
        {
            let x: i32 = (SCREEN_WIDTH / 2) as i32 + i as i32 * PIPE_SPACING;
            pipes.push(Pipe::new(x));
            i = i + 1;
        }
        World { player: Player::new(PLAYER_SPAWN_X, PLAYER_SPAWN_Y), pipes, score: 0 }
    }

    /// One simulation tick. The player falls one step; if that puts it on the ground it
    /// dies, nothing else moves, and the result is `true`: the simulation is over.
    /// Otherwise every obstacle takes its step against the player's new box in order,
    /// the fall counter goes up, and the result is `false`. A hit on an obstacle kills
    /// the player without ending the simulation.
    pub fn tick(&mut self) -> (grounded: bool)
        requires
            old(self).wf(),
            old(self).can_tick(),
        ensures
            final(self).wf(),
            final(self).player.bounding_box == old(self).player.fallen().bounding_box,
            final(self).player.y_velocity == old(self).player.fallen().y_velocity,
            grounded == old(self).player.fallen().on_ground(),
            final(self).player.is_dead == (old(self).player.is_dead || grounded || exists|i: int|
                0 <= i < old(self).pipes@.len() && (#[trigger] old(self).pipes@[i]).scrolled().collides(
                    final(self).player.bounding_box,
                )),
            grounded ==> {
                &&& final(self).pipes@ == old(self).pipes@
                &&& final(self).score == old(self).score
                &&& final(self).player.frames_falling == old(self).player.frames_falling
            },
            !grounded ==> {
                &&& final(self).pipes@.len() == old(self).pipes@.len()
                &&& forall|i: int|
                    0 <= i < old(self).pipes@.len() ==> #[trigger] final(self).pipes@[i]
                        == old(self).pipes@[i].stepped(
                        final(self).player.bounding_box,
                        final(self).pipes@[i].hole_y,
                    )
                &&& final(self).score == old(self).score + scoring_count(
                    old(self).pipes@,
                    final(self).player.bounding_box,
                )
                &&& final(self).player.frames_falling == if old(self).player.frames_falling
                    < u8::MAX {
                    old(self).player.frames_falling + 1
                } else {
                    u8::MAX as int
                }
            },
    {
        self.player.update();
        if self.player.touches_ground() {
            self.player.is_dead = true;
            return true;
        }
        let ghost body = self.player.bounding_box;
        let ghost start = *self;
        proof {
            lemma_scoring_count_bound(start.pipes@, body);
        }
        let n = self.pipes.len();
        let mut i: usize = 0;
        while i < n
            invariant
                i <= n,
                n == start.pipes@.len(),
                self.pipes@.len() == n,
                start.wf(),
                start.score + n <= u32::MAX,
                scoring_count(start.pipes@, body) <= n,
                self.player.bounding_box == body,
                self.player.y_velocity == start.player.y_velocity,
                self.player.frames_falling == start.player.frames_falling,
                self.player.is_dead == (start.player.is_dead || exists|j: int|
                    0 <= j < i && (#[trigger] start.pipes@[j]).scrolled().collides(body)),
                self.score == start.score + scoring_count(start.pipes@.take(i as int), body),
                forall|j: int|
                    0 <= j < i ==> {
                        &&& #[trigger] self.pipes@[j] == start.pipes@[j].stepped(
                            body,
                            self.pipes@[j].hole_y,
                        )
                        &&& self.pipes@[j].wf()
                        &&& self.pipes@[j].bounding_box.x > RECYCLE_X
                    },
                forall|j: int| i <= j < n ==> #[trigger] self.pipes@[j] == start.pipes@[j],
            decreases n - i,
        {
            proof {
                assert(start.pipes@.take(i as int + 1).drop_last() == start.pipes@.take(i as int));
                lemma_scoring_count_bound(start.pipes@.take(i as int), body);
                assert(start.pipes@.take(i as int + 1).last() == start.pipes@[i as int]);
                assert(start.pipes@[i as int].wf());
            }
            let mut pipe = self.pipes[i];
            pipe.update(&mut self.score, &mut self.player);
            self.pipes.set(i, pipe);
            i = i + 1;
        }
        proof {
            assert(start.pipes@.take(n as int) == start.pipes@);
        }
        self.player.count_falling_frame();
        false
    }
}

} // verus!

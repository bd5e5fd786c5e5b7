use vstd::prelude::*;

use crate::config::{
    GROUND_HEIGHT, HOLE_HEIGHT, HOLE_MAX, HOLE_MIN, PIPE_HEIGHT, PIPE_WIDTH, RECYCLE_X, RESPAWN_X,
    SCREEN_HEIGHT, SCROLL_SPEED,
};
use crate::geometry::Rect;
use crate::player::Player;
use crate::random::random_in_range;

verus! {

/// An obstacle: a column with a gap whose top edge is at `hole_y`.
#[derive(Clone, Copy, Debug, PartialEq, Eq, Structural)]
pub struct Pipe {
    pub bounding_box: Rect,
    pub hole_y: i32,
    pub has_scored: bool,
}

pub open spec fn hole_in_range(hole_y: int) -> bool {
    HOLE_MIN <= hole_y <= HOLE_MAX
}

impl Pipe {
    /// The gap lies in its range and the column has the obstacle's fixed shape.
    pub open spec fn wf(self) -> bool {
        &&& hole_in_range(self.hole_y as int)
        &&& self.bounding_box.y == 0
        &&& self.bounding_box.width == PIPE_WIDTH
        &&& self.bounding_box.height == PIPE_HEIGHT
    }

    /// The part of the column above the gap.
    pub open spec fn upper(self) -> Rect {
        Rect { x: self.bounding_box.x, y: 0, width: self.bounding_box.width, height: self.hole_y as u32 }
    }

    /// The part of the column below the gap, down to the ground.
    pub open spec fn lower(self) -> Rect {
        Rect {
            x: self.bounding_box.x,
            y: (self.hole_y + HOLE_HEIGHT) as i32,
            width: self.bounding_box.width,
            height: (SCREEN_HEIGHT - GROUND_HEIGHT - (self.hole_y + HOLE_HEIGHT)) as u32,
        }
    }

    /// A body with this box hits the column above or below the gap.
    pub open spec fn collides(self, body: Rect) -> bool {
        body.intersects(self.lower()) || body.intersects(self.upper())
    }

    /// A body with this box passes through a column that has not yet counted.
    pub open spec fn scores(self, body: Rect) -> bool {
        !self.has_scored && self.bounding_box.intersects(body)
    }

    /// The same obstacle moved left by one tick's scroll.
    pub open spec fn scrolled(self) -> Pipe {
        Pipe {
            bounding_box: Rect {
                x: (self.bounding_box.x - SCROLL_SPEED) as i32,
                y: self.bounding_box.y,
                width: self.bounding_box.width,
                height: self.bounding_box.height,
            },
            hole_y: self.hole_y,
            has_scored: self.has_scored,
        }
    }

    /// This tick's scroll brings the obstacle to the far-left threshold.
    pub open spec fn recycles(self) -> bool {
        self.bounding_box.x - SCROLL_SPEED <= RECYCLE_X
    }

    /// The obstacle after one tick against a body with box `body`; `fresh_hole` is the
    /// gap it gets if it is recycled, and is not read otherwise.
    pub open spec fn stepped(self, body: Rect, fresh_hole: i32) -> Pipe {
        let s = self.scrolled();
        if self.recycles() {
            Pipe {
                bounding_box: Rect {
                    x: RESPAWN_X,
                    y: s.bounding_box.y,
                    width: s.bounding_box.width,
                    height: s.bounding_box.height,
                },
                hole_y: fresh_hole,
                has_scored: false,
            }
        } else {
            Pipe {
                bounding_box: s.bounding_box,
                hole_y: s.hole_y,
                has_scored: s.has_scored || s.scores(body),
            }
        }
    }

    /// A gap position drawn uniformly from its range.
    pub fn generate_hole() -> (r: i32)
        ensures
            hole_in_range(r as int),
    {
        random_in_range(HOLE_MIN, HOLE_MAX)
    }

    /// An obstacle at `x` with a freshly drawn gap.
    pub fn new(x: i32) -> (p: Pipe)
        ensures
            p.wf(),
            p.bounding_box.x == x,
            !p.has_scored,
    {
        Pipe::with_hole(x, Pipe::generate_hole())
    }

    /// An obstacle at `x` with its gap at `hole_y`.
    pub fn with_hole(x: i32, hole_y: i32) -> (p: Pipe)
        requires
            hole_in_range(hole_y as int),
        ensures
            p.wf(),
            p.bounding_box == (Rect { x, y: 0, width: PIPE_WIDTH, height: PIPE_HEIGHT }),
            p.hole_y == hole_y,
            !p.has_scored,
    {
        Pipe { bounding_box: Rect::new(x, 0, PIPE_WIDTH, PIPE_HEIGHT), hole_y, has_scored: false }
    }

    pub fn upper_rect(&self) -> (r: Rect)
        requires
            self.wf(),
        ensures
            r == self.upper(),
    {
        Rect::new(self.bounding_box.x, 0, self.bounding_box.width, self.hole_y as u32)
    }

    pub fn lower_rect(&self) -> (r: Rect)
        requires
            self.wf(),
        ensures
            r == self.lower(),
    {
        let top: i32 = self.hole_y + HOLE_HEIGHT as i32;
        let height: u32 = SCREEN_HEIGHT - GROUND_HEIGHT - top as u32;
        Rect::new(self.bounding_box.x, top, self.bounding_box.width, height)
    }

    /// One tick of this obstacle against `player`, with `fresh_hole` as the gap a recycled
    /// obstacle gets: it scrolls left; a hit on the column above or below the gap kills the
    /// player (without stopping the game); passing through a column that has not counted
    /// yet adds one to `score`; reaching the far-left threshold sends it back to the right.
    pub fn advance(&mut self, score: &mut u32, player: &mut Player, fresh_hole: i32)
        requires
            old(self).wf(),
            i32::MIN + SCROLL_SPEED <= old(self).bounding_box.x,
            *old(score) < u32::MAX,
            hole_in_range(fresh_hole as int),
        ensures
            *final(self) == old(self).stepped(old(player).bounding_box, fresh_hole),
            final(self).wf(),
            final(self).bounding_box.x > RECYCLE_X,
            *final(score) == *old(score) + if old(self).scrolled().scores(old(player).bounding_box) {
                1int
            } else {
                0int
            },
            final(player).is_dead == (old(player).is_dead || old(self).scrolled().collides(
                old(player).bounding_box,
            )),
            final(player).bounding_box == old(player).bounding_box,
            final(player).y_velocity == old(player).y_velocity,
            final(player).frames_falling == old(player).frames_falling,
    {
        self.bounding_box.x = self.bounding_box.x - SCROLL_SPEED;
        if player.bounding_box.has_intersection(self.lower_rect())
            || player.bounding_box.has_intersection(self.upper_rect()) {
            player.is_dead = true;
        }
        if !self.has_scored && self.bounding_box.has_intersection(player.bounding_box) {
            *score = *score + 1;
            self.has_scored = true;
        }
        if self.bounding_box.x <= RECYCLE_X {
            self.bounding_box.x = RESPAWN_X;
            self.hole_y = fresh_hole;
            self.has_scored = false;
        }
    }

    /// One tick of this obstacle against `player`, as `advance` does it; a recycled
    /// obstacle gets a freshly drawn gap.
    pub fn update(&mut self, score: &mut u32, player: &mut Player)
        requires
            old(self).wf(),
            i32::MIN + SCROLL_SPEED <= old(self).bounding_box.x,
            *old(score) < u32::MAX,
        ensures
            *final(self) == old(self).stepped(old(player).bounding_box, final(self).hole_y),
            final(self).wf(),
            final(self).bounding_box.x > RECYCLE_X,
            old(self).recycles() ==> {
                &&& final(self).bounding_box.x == RESPAWN_X
                &&& !final(self).has_scored
                &&& hole_in_range(final(self).hole_y as int)
            },
            !old(self).recycles() ==> final(self).hole_y == old(self).hole_y,
            *final(score) == *old(score) + if old(self).scrolled().scores(old(player).bounding_box) {
                1int
            } else {
                0int
            },
            final(player).is_dead == (old(player).is_dead || old(self).scrolled().collides(
                old(player).bounding_box,
            )),
            final(player).bounding_box == old(player).bounding_box,
            final(player).y_velocity == old(player).y_velocity,
            final(player).frames_falling == old(player).frames_falling,
    {
        let fresh_hole = if self.bounding_box.x - SCROLL_SPEED <= RECYCLE_X {
            Pipe::generate_hole()
        } else {
            self.hole_y
        };
        self.advance(score, player, fresh_hole);
    }
}

/// How many of the first n ticks count a score, for an obstacle that goes through
/// `states` against bodies with the boxes in `bodies`.
pub open spec fn score_events(states: Seq<Pipe>, bodies: Seq<Rect>, n: nat) -> nat
    decreases n,
{
    if n == 0 {
        0
    } else {
        score_events(states, bodies, (n - 1) as nat) + if states[n - 1].scrolled().scores(
            bodies[n - 1],
        ) {
            1nat
        } else {
            0nat
        }
    }
}

/// A run of ticks in which the obstacle is not recycled: a single traversal.
pub open spec fn is_traversal(states: Seq<Pipe>, bodies: Seq<Rect>) -> bool {
    &&& states.len() == bodies.len() + 1
    &&& forall|k: int|
        0 <= k < bodies.len() ==> !states[k].recycles() && #[trigger] states[k + 1]
            == states[k].stepped(bodies[k], states[k + 1].hole_y)
}

proof fn lemma_score_events_prefix(states: Seq<Pipe>, bodies: Seq<Rect>, n: nat)
    requires
        is_traversal(states, bodies),
        n <= bodies.len(),
    ensures
        score_events(states, bodies, n) <= 1,
        states[n as int].has_scored == (states[0].has_scored || score_events(states, bodies, n)
            == 1),
        states[0].has_scored ==> score_events(states, bodies, n) == 0,
    decreases n,
{
    if n > 0 {
        lemma_score_events_prefix(states, bodies, (n - 1) as nat);
        let k = n - 1;
        assert(states[k + 1] == states[k].stepped(bodies[k], states[k + 1].hole_y));
    }
}

/// Within one traversal an obstacle counts towards the score at most once, and not at
/// all if it had already counted when the traversal began.
pub proof fn lemma_scores_once_per_traversal(states: Seq<Pipe>, bodies: Seq<Rect>)
    requires
        is_traversal(states, bodies),
    ensures
        score_events(states, bodies, bodies.len()) <= 1,
        states[0].has_scored ==> score_events(states, bodies, bodies.len()) == 0,
{
    lemma_score_events_prefix(states, bodies, bodies.len());
}

} // verus!

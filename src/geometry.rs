use vstd::prelude::*;

verus! {

/// An axis-aligned rectangle in screen pixels: its top-left corner and its size.
#[derive(Clone, Copy, Debug, PartialEq, Eq, Structural)]
pub struct Rect {
    pub x: i32,
    pub y: i32,
    pub width: u32,
    pub height: u32,
}

impl Rect {
    pub open spec fn left(self) -> int {
        self.x as int
    }

    pub open spec fn right(self) -> int {
        self.x as int + self.width as int
    }

    pub open spec fn top(self) -> int {
        self.y as int
    }

    pub open spec fn bottom(self) -> int {
        self.y as int + self.height as int
    }

    pub open spec fn is_empty(self) -> bool {
        self.width == 0 || self.height == 0
    }

    /// Both rectangles are non-empty and they overlap with a positive area;
    /// rectangles that only share an edge do not intersect.
    pub open spec fn intersects(self, other: Rect) -> bool {
        &&& !self.is_empty()
        &&& !other.is_empty()
        &&& self.left() < other.right()
        &&& other.left() < self.right()
        &&& self.top() < other.bottom()
        &&& other.top() < self.bottom()
    }

    /// The point lies inside, counting the left and top edges but not the right and bottom ones.
    pub open spec fn contains(self, px: int, py: int) -> bool {
        &&& self.left() <= px < self.right()
        &&& self.top() <= py < self.bottom()
    }

    pub fn new(x: i32, y: i32, width: u32, height: u32) -> (r: Rect)
        ensures
            r == (Rect { x, y, width, height }),
    {
        Rect { x, y, width, height }
    }

    pub fn has_intersection(&self, other: Rect) -> (r: bool)
        ensures
            r == self.intersects(other),
    {
        if self.width == 0 || self.height == 0 || other.width == 0 || other.height == 0 {
            return false;
        }
        let self_right: i64 = self.x as i64 + self.width as i64;
        let other_right: i64 = other.x as i64 + other.width as i64;
        let self_bottom: i64 = self.y as i64 + self.height as i64;
        let other_bottom: i64 = other.y as i64 + other.height as i64;
        (self.x as i64) < other_right && (other.x as i64) < self_right && (self.y as i64)
            < other_bottom && (other.y as i64) < self_bottom
    }

    pub fn contains_point(&self, px: i32, py: i32) -> (r: bool)
        ensures
            r == self.contains(px as int, py as int),
    {
        let right: i64 = self.x as i64 + self.width as i64;
        let bottom: i64 = self.y as i64 + self.height as i64;
        let inside_x = px >= self.x && (px as i64) < right;
        inside_x && py >= self.y && (py as i64) < bottom
    }
}

} // verus!

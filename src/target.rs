use vstd::prelude::*;
use rand::Rng;
use crate::config::{
    BASE_HEIGHT, BASE_WIDTH, INCREASE_STEP, MAX_COLOR, MAX_SELECT_NUMBER, MAX_SIDE, MIN_SIDE,
    SPAWN_MARGIN,
};

verus! {

/// One numbered rectangle drifting across the field.
#[derive(Clone, Copy, Debug, PartialEq, Eq, Structural)]
pub struct Target {
    pub x: i32,
    pub y: i32,
    pub w: i32,
    pub h: i32,
    /// Points earned by clicking it.
    pub value: i32,
    /// Index into the color table.
    pub color: i32,
    /// `0` moves right, anything else moves left.
    pub direction: i32,
}

impl Target {
    /// Positive size, value and color in range, and a width that leaves
    /// room for one step to the left of a target still on the field.
    pub open spec fn valid(self) -> bool {
        &&& 0 < self.w <= i32::MAX - INCREASE_STEP
        &&& 0 < self.h
        &&& 1 <= self.value < MAX_SELECT_NUMBER
        &&& 0 <= self.color < MAX_COLOR
    }

    /// The target has left the field horizontally.
    pub open spec fn off_field(self) -> bool {
        self.x > BASE_WIDTH || self.x + self.w < 0
    }

    /// The point lies in the rectangle, borders included.
    pub open spec fn covers(self, px: int, py: int) -> bool {
        &&& self.x <= px <= self.x + self.w
        &&& self.y <= py <= self.y + self.h
    }

    /// Still on the field and under the click: removed for its value.
    pub open spec fn clicked(self, px: int, py: int) -> bool {
        !self.off_field() && self.covers(px, py)
    }

    /// Removed in a tick with the click at `(px, py)`.
    pub open spec fn removed(self, px: int, py: int) -> bool {
        self.off_field() || self.covers(px, py)
    }

    /// The target after one step along its direction.
    pub open spec fn moved(self) -> Target {
        Target {
            x: if self.direction == 0 {
                (self.x + INCREASE_STEP) as i32
            } else {
                (self.x - INCREASE_STEP) as i32
            },
            ..self
        }
    }

    /// Within the ranges that new targets are drawn from.
    pub open spec fn spawnable(self) -> bool {
        &&& 1 <= self.x < BASE_WIDTH - SPAWN_MARGIN
        &&& 1 <= self.y < BASE_HEIGHT - SPAWN_MARGIN
        &&& MIN_SIDE <= self.w < MAX_SIDE
        &&& MIN_SIDE <= self.h < MAX_SIDE
        &&& 1 <= self.value < MAX_SELECT_NUMBER
        &&& 0 <= self.color < MAX_COLOR
        &&& 0 <= self.direction < 2
    }

    pub fn is_off_field(&self) -> (r: bool)
        ensures
            r == self.off_field(),
    {
        self.x > BASE_WIDTH || (self.x as i64) + (self.w as i64) < 0
    }

    pub fn covers_point(&self, px: i64, py: i64) -> (r: bool)
        ensures
            r == self.covers(px as int, py as int),
    {
        let x = self.x as i64;
        let y = self.y as i64;
        x <= px && px <= x + self.w as i64 && y <= py && py <= y + self.h as i64
    }

    /// Moves the target one step along its direction.
    pub fn step(&self) -> (r: Target)
        requires
            self.valid(),
            !self.off_field(),
        ensures
            r == self.moved(),
            r.valid(),
    {
        if self.direction == 0 {
            Target { x: self.x + INCREASE_STEP, ..*self }
        } else {
            Target { x: self.x - INCREASE_STEP, ..*self }
        }
    }
}

/// What one tick does to a target with the click at `(px, py)`: `None` when it
/// is removed, else the target one step further.
pub open spec fn advance(t: Target, px: int, py: int) -> Option<Target> {
    if t.removed(px, py) {
        None
    } else {
        Some(t.moved())
    }
}

pub open spec fn advance_at(px: int, py: int) -> spec_fn(Target) -> Option<Target> {
    |t: Target| advance(t, px, py)
}

/// The targets that stay after a tick, moved, in their order.
pub open spec fn survivors(s: Seq<Target>, px: int, py: int) -> Seq<Target> {
    s.filter_map(advance_at(px, py))
}

/// Sum of the values of the targets that the click at `(px, py)` removes.
pub open spec fn clicked_gain(s: Seq<Target>, px: int, py: int) -> int
    decreases s.len(),
{
    if s.len() == 0 {
        0
    } else {
        clicked_gain(s.drop_last(), px, py) + if s.last().clicked(px, py) {
            s.last().value as int
        } else {
            0
        }
    }
}

/// Relies on rand::thread_rng and Rng::gen_range: an integer drawn from
/// `lo..hi`; gen_range panics on an empty range.
#[verifier::external_body]
fn random_in(lo: i32, hi: i32) -> (r: i32)
    requires
        lo < hi,
    ensures
        lo <= r < hi,
{
    rand::thread_rng().gen_range(lo..hi)
}

/// A new target with each field drawn at random from its spawn range.
pub fn random_target() -> (r: Target)
    ensures
        r.spawnable(),
        r.valid(),
{
    let x = random_in(1, BASE_WIDTH - SPAWN_MARGIN);
    let y = random_in(1, BASE_HEIGHT - SPAWN_MARGIN);
    let w = random_in(MIN_SIDE, MAX_SIDE);
    let h = random_in(MIN_SIDE, MAX_SIDE);
    let value = random_in(1, MAX_SELECT_NUMBER);
    let color = random_in(0, MAX_COLOR);
    let direction = random_in(0, 2);
    Target { x, y, w, h, value, color, direction }
}

} // verus!

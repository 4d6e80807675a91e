//! Board geometry: a bounded square grid with wrap-around (toroidal)
//! coordinate arithmetic, and random cell placement.

use vstd::prelude::*;

verus! {

/// One grid cell, identified by its column `x` and row `y`.
#[derive(Clone, Copy, PartialEq, Eq, Structural, Debug)]
pub struct Cell {
    pub x: i32,
    pub y: i32,
}

/// Mathematical meaning of wrap-around clamping: repeatedly shift the
/// coordinate by the width of the interval `[min, max)` until it lands
/// inside, as if the axis were circular.
pub open spec fn clamp_wrap(c: int, min: int, max: int) -> int
    decreases
            (if c < min {
                min - c
            } else if c >= max {
                c - max + 1
            } else {
                0
            }),
{
    if min < max {
        if c < min {
            clamp_wrap(c + (max - min), min, max)
        } else if c >= max {
            clamp_wrap(c - (max - min), min, max)
        } else {
            c
        }
    } else {
        c
    }
}

/// Wrap-around clamping holds its result inside `[min, max)` for every
/// integer input.
pub proof fn lemma_clamp_wrap_in_range(c: int, min: int, max: int)
    requires
        min < max,
    ensures
        min <= clamp_wrap(c, min, max) < max,
    decreases
            (if c < min {
                min - c
            } else if c >= max {
                c - max + 1
            } else {
                0
            }),
{
    if c < min {
        lemma_clamp_wrap_in_range(c + (max - min), min, max);
    } else if c >= max {
        lemma_clamp_wrap_in_range(c - (max - min), min, max);
    }
}

/// Wrap-around clamping is idempotent: a coordinate already in range is
/// left alone, so clamping twice equals clamping once.
pub proof fn lemma_clamp_wrap_idempotent(c: int, min: int, max: int)
    requires
        min < max,
    ensures
        clamp_wrap(clamp_wrap(c, min, max), min, max) == clamp_wrap(c, min, max),
{
    lemma_clamp_wrap_in_range(c, min, max);
}

/// The board a game is played on: a square grid, `size` cells per side.
#[derive(Clone, Copy, PartialEq, Eq, Structural, Debug)]
pub struct Board {
    pub size: i32,
}

/// Relies on rand::random: one draw of an `i32` from the thread-local
/// generator. Nothing is promised of the value; callers must cope with
/// every outcome.
#[verifier::external_body]
fn random_i32() -> (r: i32) {
    rand::random::<i32>()
}

/// One random draw, folded into a coordinate in `[0, size)`.
fn random_coord(size: i32) -> (r: i32)
    requires
        size > 0,
    ensures
        0 <= r < size,
{
    let raw: i32 = random_i32();
    let a: i32 = if raw == i32::MIN {
        0
    } else if raw < 0 {
        -raw
    } else {
        raw
    };
    a % size
}

impl Board {
    /// A randomly drawn cell somewhere on the board.
    pub fn random_cell(&self) -> (c: Cell)
        requires
            self.size > 0,
        ensures
            0 <= c.x < self.size,
            0 <= c.y < self.size,
    {
        Cell { x: random_coord(self.size), y: random_coord(self.size) }
    }

    /// Wraps a coordinate onto this board's `[0, size)` axis.
    pub fn clamp_wrap(&self, c: i32) -> (r: i32)
        requires
            self.size > 0,
        ensures
            r as int == clamp_wrap(c as int, 0, self.size as int),
            0 <= r < self.size,
    {
        proof {
            lemma_clamp_wrap_in_range(c as int, 0, self.size as int);
        }
        snake_clamp(c, 0, self.size)
    }
}

/// Wraps `x` into `[min, max)` as if the axis were circular.
pub fn snake_clamp(x: i32, min: i32, max: i32) -> (r: i32)
    requires
        min < max,
        max - min <= i32::MAX,
    ensures
        r as int == clamp_wrap(x as int, min as int, max as int),
    decreases
            (if x < min {
                min - x
            } else if x >= max {
                x - max + 1
            } else {
                0
            }),
{
    if x < min {
        snake_clamp(x + (max - min), min, max)
    } else if x >= max {
        snake_clamp(x - (max - min), min, max)
    } else {
        x
    }
}

} // verus!

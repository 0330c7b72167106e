//! The immediate-mode GUI runtime.
//!
//! Widgets have no persistent objects: every call derives a stable element
//! identifier from its label and the identifier stack ([`state`]), consults
//! the interaction store for hover, capture, focus, edit and scroll state,
//! renders through the rasterizer, and reports whether it changed its bound
//! value.

use vstd::prelude::*;
use crate::event::KeyMod;

pub mod state;
pub mod theme;
pub mod scroll;
pub mod list;
pub mod widgets;

verus! {

/// The modifier that switches a slider into numeric-entry mode.
pub const MOD_CTRL: KeyMod = KeyMod::Ctrl;

/// Scroll direction.
#[derive(Debug, Copy, Clone, PartialEq, Eq, Structural, Hash)]
pub enum Direction {
    /// Horizontal.
    Horizontal,
    /// Vertical.
    Vertical,
}

/// An axis-aligned rectangle: origin `(x, y)`, extent `width` by `height`.
#[derive(Debug, Copy, Clone, PartialEq, Eq, Structural)]
pub struct Rect {
    /// Left edge.
    pub x: i32,
    /// Top edge.
    pub y: i32,
    /// Horizontal extent; never negative in a well-formed rectangle.
    pub width: i32,
    /// Vertical extent; never negative in a well-formed rectangle.
    pub height: i32,
}

impl Rect {
    /// A well-formed rectangle: non-negative extent, and corners that stay
    /// inside the coordinate range the rasterizer accepts.
    pub open spec fn wf(&self) -> bool {
        &&& -0x39000 <= self.x <= 0x39000
        &&& -0x39000 <= self.y <= 0x39000
        &&& 0 <= self.width <= 0x10000
        &&& 0 <= self.height <= 0x10000
    }

    /// Whether the point `(px, py)` lies inside the rectangle, as a
    /// specification.
    pub open spec fn spec_contains(&self, px: int, py: int) -> bool {
        &&& self.x <= px < self.x + self.width
        &&& self.y <= py < self.y + self.height
    }

    /// Constructs a rectangle.
    pub fn new(x: i32, y: i32, width: i32, height: i32) -> (r: Rect)
        ensures
            r == (Rect { x, y, width, height }),
    {
        Rect { x, y, width, height }
    }

    /// The right edge, one past the last column.
    pub fn right(&self) -> (r: i32)
        requires
            self.wf(),
        ensures
            r == self.x + self.width,
    {
        self.x + self.width
    }

    /// The bottom edge, one past the last row.
    pub fn bottom(&self) -> (r: i32)
        requires
            self.wf(),
        ensures
            r == self.y + self.height,
    {
        self.y + self.height
    }

    /// Whether the point `(px, py)` lies inside the rectangle.
    pub fn contains_point(&self, px: i32, py: i32) -> (r: bool)
        requires
            self.wf(),
        ensures
            r == self.spec_contains(px as int, py as int),
    {
        self.x <= px && px < self.x + self.width && self.y <= py && py < self.y + self.height
    }
}

/// `v` clamped into `[lo, hi]`.
pub fn clamp_i32(v: i32, lo: i32, hi: i32) -> (r: i32)
    requires
        lo <= hi,
    ensures
        r == vstd::math::max(lo as int, vstd::math::min(v as int, hi as int)),
{
    if v < lo {
        lo
    } else if v > hi {
        hi
    } else {
        v
    }
}

/// `(a * b) / c` for a numerator factor `a` no larger than the divisor
/// `c`: the result stays within `[0, b]`.
pub fn mul_div(a: i32, b: i32, c: i32) -> (r: i32)
    requires
        0 <= a <= c,
        1 <= c <= 0x7fff_ffff,
        0 <= b <= 0x7fff_ffff,
    ensures
        r == (a * b) / (c as int),
        0 <= r <= b,
{
    proof {
        assert(0 <= a * b <= c * b) by (nonlinear_arith)
            requires
                0 <= a <= c,
                0 <= b,
        ;
        assert(c * b <= 0x7fff_ffff * 0x7fff_ffff) by (nonlinear_arith)
            requires
                0 <= c <= 0x7fff_ffff,
                0 <= b <= 0x7fff_ffff,
        ;
        vstd::arithmetic::div_mod::lemma_div_is_ordered(a * b, c * b, c as int);
        vstd::arithmetic::div_mod::lemma_div_by_multiple(b as int, c as int);
        assert((c * b) / (c as int) == b) by {
            assert(c * b == b * c) by (nonlinear_arith);
        }
    }
    let q: i64 = (a as i64 * b as i64) / c as i64;
    q as i32
}

/// `v` clamped into `[lo, hi]`.
pub fn clamp_i64(v: i64, lo: i64, hi: i64) -> (r: i64)
    requires
        lo <= hi,
    ensures
        r == vstd::math::max(lo as int, vstd::math::min(v as int, hi as int)),
{
    if v < lo {
        lo
    } else if v > hi {
        hi
    } else {
        v
    }
}

} // verus!

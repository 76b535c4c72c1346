//! Pixel geometry: extents, rectangles and colours.

use vstd::prelude::*;

verus! {

/// A width and a height, in whole pixels.
#[derive(Clone, Copy, Debug, PartialEq, Eq)]
pub struct Extent {
    pub w: i32,
    pub h: i32,
}

/// An axis-aligned rectangle: its top-left corner and its extent.
#[derive(Clone, Copy, Debug, PartialEq, Eq)]
pub struct Rect {
    pub x: i32,
    pub y: i32,
    pub w: i32,
    pub h: i32,
}

/// A colour with eight bits per channel.
#[derive(Clone, Copy, Debug, PartialEq, Eq)]
pub struct Rgba {
    pub r: u8,
    pub g: u8,
    pub b: u8,
    pub a: u8,
}

/// The colour a frame is cleared to before the interface is drawn on it.
pub open spec fn opaque_white() -> Rgba {
    Rgba { r: 255, g: 255, b: 255, a: 255 }
}

impl Extent {
    /// Neither side is zero or negative: there is something to draw on.
    pub open spec fn visible(self) -> bool {
        self.w > 0 && self.h > 0
    }

    /// This extent in logical units: each side divided by the scale.
    pub open spec fn logical(self, scale: int) -> Extent {
        Extent { w: (self.w as int / scale) as i32, h: (self.h as int / scale) as i32 }
    }

    /// Converts a physical extent to logical units for an integer scale
    /// factor, rounding each side down.
    pub fn to_logical(self, scale: i32) -> (logical: Extent)
        requires
            self.w >= 0,
            self.h >= 0,
            scale > 0,
        ensures
            logical == self.logical(scale as int),
            logical.w == self.w as int / scale as int,
            logical.h == self.h as int / scale as int,
            0 <= logical.w <= self.w,
            0 <= logical.h <= self.h,
    {
        proof {
            lemma_quotient_bounds(self.w as int, scale as int);
            lemma_quotient_bounds(self.h as int, scale as int);
        }
        Extent { w: self.w / scale, h: self.h / scale }
    }
}

impl Rect {
    /// The rectangle that starts at the origin and covers `size`.
    pub open spec fn covering(size: Extent) -> Rect {
        Rect { x: 0, y: 0, w: size.w, h: size.h }
    }

    /// The rectangle that starts at the origin and covers `size`.
    pub fn from_size(size: Extent) -> (rect: Rect)
        ensures
            rect == Rect::covering(size),
    {
        Rect { x: 0, y: 0, w: size.w, h: size.h }
    }
}

impl Rgba {
    /// Opaque white.
    pub fn white() -> (colour: Rgba)
        ensures
            colour == opaque_white(),
    {
        Rgba { r: 255, g: 255, b: 255, a: 255 }
    }
}

/// A non-negative number divided by a positive one lies between zero and
/// the number itself.
pub proof fn lemma_quotient_bounds(n: int, d: int)
    requires
        n >= 0,
        d > 0,
    ensures
        0 <= n / d <= n,
{
    assert(0 <= n / d <= n) by (nonlinear_arith)
        requires
            n >= 0,
            d > 0,
    ;
}

} // verus!

//! The surface negotiator: the size the compositor assigns to the panel, and
//! the place the panel asks for on an output.

use vstd::prelude::*;
use crate::geometry::Extent;

verus! {

/// The side of the fallback square, used while the compositor has expressed
/// no preference of its own.
pub const FALLBACK_EXTENT: u32 = 256;

/// The height of the bar, in logical pixels.
pub const BAR_HEIGHT: u32 = 40;

/// The depth of the strip that other windows must keep clear.
pub const EXCLUSIVE_ZONE: i32 = 40;

/// An edge of an output.
#[derive(Clone, Copy, Debug, PartialEq, Eq)]
pub enum Edge {
    Top,
    Bottom,
    Left,
    Right,
}

/// Where the panel asks to be put: the edge it docks to, the size it asks
/// for, and the space it reserves.
#[derive(Clone, Copy, Debug, PartialEq, Eq)]
pub struct Placement {
    pub anchor: Edge,
    pub width: u32,
    pub height: u32,
    pub exclusive_zone: i32,
}

/// The size that a configuration message leaves the panel with: the proposed
/// one, or the fallback square where a side is left open with a zero.
pub open spec fn negotiated(width: nat, height: nat) -> (nat, nat) {
    if width == 0 || height == 0 {
        (FALLBACK_EXTENT as nat, FALLBACK_EXTENT as nat)
    } else {
        (width, height)
    }
}

/// A signed width read as the unsigned number with the same 32 bits.
pub open spec fn as_unsigned(width: int) -> int {
    if width >= 0 {
        width
    } else {
        width + 0x1_0000_0000
    }
}

/// The place asked for on an output of the given logical size: docked to the
/// top edge, as wide as the output, with the bar's height reserved.
pub open spec fn placement_on(output: Extent) -> Placement {
    Placement {
        anchor: Edge::Top,
        width: as_unsigned(output.w as int) as u32,
        height: BAR_HEIGHT,
        exclusive_zone: EXCLUSIVE_ZONE,
    }
}

/// Settles the size proposed by a configuration message.
pub fn negotiate(width: u32, height: u32) -> (size: (u32, u32))
    ensures
        (size.0 as nat, size.1 as nat) == negotiated(width as nat, height as nat),
        size.0 > 0,
        size.1 > 0,
{
    if width == 0 || height == 0 {
        (FALLBACK_EXTENT, FALLBACK_EXTENT)
    } else {
        (width, height)
    }
}

/// Works out the place to ask for on an output of the given logical size.
pub fn place_on(output: Extent) -> (placement: Placement)
    ensures
        placement == placement_on(output),
{
    let width: u32 = if output.w >= 0 {
        output.w as u32
    } else {
        (output.w as i64 + 0x1_0000_0000) as u32
    };
    Placement { anchor: Edge::Top, width, height: BAR_HEIGHT, exclusive_zone: EXCLUSIVE_ZONE }
}

} // verus!

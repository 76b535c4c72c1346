//! The input router's vocabulary: surfaces, keys, and keyboard and pointer
//! events.

use vstd::prelude::*;

verus! {

/// The key that ends the session: Escape.
pub const CANCEL_KEYSYM: u32 = 0xff1b;

/// The value that "shift" holds while it is set.
pub const SHIFT_SENTINEL: u32 = 0;

/// Stands for a surface on the compositor's side, by its object id.
#[derive(Clone, Copy, Debug, PartialEq, Eq)]
pub struct SurfaceId {
    pub id: u32,
}

/// The modifier keys that are held down.
#[derive(Clone, Copy, Debug, PartialEq, Eq)]
pub struct Modifiers {
    pub ctrl: bool,
    pub alt: bool,
    pub shift: bool,
    pub caps_lock: bool,
    pub logo: bool,
    pub num_lock: bool,
}

/// What happened on the keyboard.
#[derive(Clone, Copy, Debug, PartialEq, Eq)]
pub enum KeyboardEventKind {
    Enter,
    Leave,
    Press { keysym: u32 },
    Release { keysym: u32 },
    Modifiers(Modifiers),
}

/// A keyboard event and the surface it is addressed to.
#[derive(Clone, Copy, Debug, PartialEq, Eq)]
pub struct KeyboardEvent {
    pub surface: SurfaceId,
    pub kind: KeyboardEventKind,
}

/// What happened with the pointer.
#[derive(Clone, Copy, Debug, PartialEq, Eq)]
pub enum PointerEventKind {
    Enter,
    Leave,
    Motion,
    Press { button: u32 },
    Release { button: u32 },
    Axis { horizontal: i32, vertical: i32 },
}

/// A pointer event and the surface it is addressed to.
#[derive(Clone, Copy, Debug, PartialEq, Eq)]
pub struct PointerEvent {
    pub surface: SurfaceId,
    pub kind: PointerEventKind,
}

/// The one of two optional values that is present alone; nothing where both
/// or neither are.
pub open spec fn exclusive_or(a: Option<u32>, b: Option<u32>) -> Option<u32> {
    match (a, b) {
        (Some(x), None) => Some(x),
        (None, Some(y)) => Some(y),
        _ => None,
    }
}

/// "Shift" after one more press: set to the sentinel if it was unset, unset
/// if it held anything.
pub open spec fn toggled(shift: Option<u32>) -> Option<u32> {
    exclusive_or(shift, Some(SHIFT_SENTINEL))
}

impl SurfaceId {
    /// Whether both stand for the same surface.
    pub fn same(self, other: SurfaceId) -> (same: bool)
        ensures
            same == (self == other),
    {
        self.id == other.id
    }
}

impl PointerEvent {
    /// Whether this is a button press.
    pub fn is_press(&self) -> (press: bool)
        ensures
            press == (self.kind is Press),
    {
        match self.kind {
            PointerEventKind::Press { .. } => true,
            _ => false,
        }
    }
}

/// Exclusive or of two optional values.
pub fn xor(a: Option<u32>, b: Option<u32>) -> (r: Option<u32>)
    ensures
        r == exclusive_or(a, b),
{
    match (a, b) {
        (Some(x), None) => Some(x),
        (None, Some(y)) => Some(y),
        _ => None,
    }
}

} // verus!

//! What reaches the panel, and what the panel asks for in return.

use vstd::prelude::*;
use crate::geometry::Extent;
use crate::input::{KeyboardEvent, PointerEvent};
use crate::seat::{Capability, DeviceHandle, DeviceKind};
use crate::surface::Placement;

verus! {

/// News of an output.
#[derive(Clone, Copy, Debug, PartialEq, Eq)]
pub enum OutputEvent {
    /// A new output, with its logical size where that is known.
    New { logical_size: Option<Extent> },
    Updated,
    Destroyed,
}

/// News of the seat, and its answers to requests for a device.
#[derive(Clone, Copy, Debug, PartialEq, Eq)]
pub enum SeatEvent {
    New,
    CapabilityAnnounced(Capability),
    CapabilityRevoked(Capability),
    /// The seat handed out the device that was asked for.
    DeviceGranted { kind: DeviceKind, handle: DeviceHandle },
    /// The seat could not hand out the device that was asked for.
    DeviceRefused { kind: DeviceKind },
    Removed,
}

/// News of the panel's own surface.
#[derive(Clone, Copy, Debug, PartialEq, Eq)]
pub enum SurfaceEvent {
    /// The compositor proposes a size; a zero leaves that side open.
    Configure { width: u32, height: u32 },
    /// The compositor closed the surface.
    Closed,
    /// The compositor is ready for the next frame.
    Frame,
    ScaleFactorChanged { factor: i32 },
}

/// Everything the compositor can tell the panel.
#[derive(Clone, Copy, Debug, PartialEq, Eq)]
pub enum Event {
    Output(OutputEvent),
    Seat(SeatEvent),
    Surface(SurfaceEvent),
    Keyboard(KeyboardEvent),
    Pointer(PointerEvent),
}

/// What the panel asks its driver to do after an event.
#[derive(Clone, Copy, Debug, PartialEq, Eq)]
pub enum Action {
    /// Run one render cycle.
    Render,
    /// Ask the seat for a device of this class.
    Acquire(DeviceKind),
    /// Give this device back to the seat.
    Release(DeviceHandle),
    /// Ask the compositor for this place on the output.
    Place(Placement),
}

/// Whether the dispatch loop goes round again.
#[derive(Clone, Copy, Debug, PartialEq, Eq)]
pub enum Flow {
    Continue,
    Exit,
}

} // verus!

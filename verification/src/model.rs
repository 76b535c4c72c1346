//! The panel as a mathematical state machine: its state, and what each event
//! makes of it.

use vstd::prelude::*;
use crate::error::PanelError;
use crate::event::{Action, Event, Flow, OutputEvent, SeatEvent, SurfaceEvent};
use crate::geometry::Extent;
use crate::input::{
    toggled, KeyboardEvent, KeyboardEventKind, PointerEvent, SurfaceId, CANCEL_KEYSYM,
    SHIFT_SENTINEL,
};
use crate::render::{FrameDescriptor, RenderCommand, RenderStage};
use crate::seat::{device_class, Capability, DeviceHandle, DeviceKind, DeviceSlot};
use crate::surface::{negotiated, placement_on, Placement, FALLBACK_EXTENT};

verus! {

/// The state of the panel.
pub struct PanelModel {
    /// The panel's own surface.
    pub surface: SurfaceId,
    /// The width the compositor assigned, in pixels.
    pub width: nat,
    /// The height the compositor assigned, in pixels.
    pub height: nat,
    /// The session is over.
    pub exit: bool,
    /// No configuration message has arrived yet.
    pub first_configure: bool,
    /// The value that pointer presses switch on and off.
    pub shift: Option<u32>,
    /// The keyboard's slot.
    pub keyboard: DeviceSlot,
    /// The pointer's slot.
    pub pointer: DeviceSlot,
    /// The keyboard's focus is on the panel.
    pub keyboard_focus: bool,
    /// The panel has asked for its place on an output.
    pub placed: bool,
    /// The frame of the render cycle in flight, if there is one.
    pub cycle: Option<FrameDescriptor>,
}

impl PanelModel {
    /// A panel that has heard nothing yet: the fallback size, no devices, no
    /// focus, nothing in flight.
    pub open spec fn initial(surface: SurfaceId) -> PanelModel {
        PanelModel {
            surface,
            width: FALLBACK_EXTENT as nat,
            height: FALLBACK_EXTENT as nat,
            exit: false,
            first_configure: true,
            shift: None,
            keyboard: DeviceSlot::vacant(),
            pointer: DeviceSlot::vacant(),
            keyboard_focus: false,
            placed: false,
            cycle: None,
        }
    }

    /// What holds of every state the panel can reach: its size is never
    /// empty, and is the fallback until the compositor has spoken; "shift" is
    /// unset or the sentinel; each slot and the frame in flight are sound.
    pub open spec fn wf(self) -> bool {
        &&& self.width > 0
        &&& self.height > 0
        &&& self.first_configure ==> self.width == FALLBACK_EXTENT && self.height
            == FALLBACK_EXTENT
        &&& self.shift is None || self.shift == Some(SHIFT_SENTINEL)
        &&& self.keyboard.wf()
        &&& self.pointer.wf()
        &&& self.cycle is Some ==> self.cycle.unwrap().wf()
    }

    /// The slot of a device class.
    pub open spec fn slot(self, kind: DeviceKind) -> DeviceSlot {
        match kind {
            DeviceKind::Keyboard => self.keyboard,
            DeviceKind::Pointer => self.pointer,
        }
    }

    /// The same state with another slot for one device class.
    pub open spec fn with_slot(self, kind: DeviceKind, slot: DeviceSlot) -> PanelModel {
        match kind {
            DeviceKind::Keyboard => PanelModel { keyboard: slot, ..self },
            DeviceKind::Pointer => PanelModel { pointer: slot, ..self },
        }
    }

    /// A handle of this class is live.
    pub open spec fn holds(self, kind: DeviceKind) -> bool {
        self.slot(kind).handle is Some
    }

    /// The seat offers this class.
    pub open spec fn offered(self, kind: DeviceKind) -> bool {
        self.slot(kind).announced
    }

    /// After a configuration message: the negotiated size is recorded, and
    /// the first message is behind us.
    pub open spec fn configure(self, width: nat, height: nat) -> PanelModel {
        PanelModel {
            width: negotiated(width, height).0,
            height: negotiated(width, height).1,
            first_configure: false,
            ..self
        }
    }

    /// After the compositor closed the surface.
    pub open spec fn closed(self) -> PanelModel {
        PanelModel { exit: true, ..self }
    }

    /// The place to ask for when an output shows up: asked once, on the first
    /// output whose logical size is known.
    pub open spec fn placement(self, logical_size: Option<Extent>) -> Option<Placement> {
        if !self.placed && logical_size is Some {
            Some(placement_on(logical_size.unwrap()))
        } else {
            None
        }
    }

    /// After an output showed up.
    pub open spec fn new_output(self, logical_size: Option<Extent>) -> PanelModel {
        PanelModel { placed: self.placed || logical_size is Some, ..self }
    }

    /// The device to ask the seat for when a capability is announced: one of
    /// its class, unless a handle of that class is live.
    pub open spec fn wanted(self, capability: Capability) -> Option<DeviceKind> {
        match device_class(capability) {
            Some(kind) => if self.holds(kind) {
                None
            } else {
                Some(kind)
            },
            None => None,
        }
    }

    /// After a capability was announced: the seat offers its class.
    pub open spec fn new_capability(self, capability: Capability) -> PanelModel {
        match device_class(capability) {
            Some(kind) => self.with_slot(kind, self.slot(kind).after_announce()),
            None => self,
        }
    }

    /// After the seat granted a device.
    pub open spec fn device_granted(self, kind: DeviceKind, handle: DeviceHandle) -> PanelModel {
        self.with_slot(kind, self.slot(kind).after_grant(handle))
    }

    /// The handle to give back when the seat granted a device.
    pub open spec fn surplus(self, kind: DeviceKind, handle: DeviceHandle) -> Option<
        DeviceHandle,
    > {
        self.slot(kind).surplus(handle)
    }

    /// What a refused device means for the session.
    pub open spec fn refusal(self, kind: DeviceKind) -> Result<(), PanelError> {
        if self.slot(kind).refusal_is_fatal() {
            Err(PanelError::CapabilityAcquisitionFailure(kind))
        } else {
            Ok(())
        }
    }

    /// The handle to give back when a capability is revoked.
    pub open spec fn released(self, capability: Capability) -> Option<DeviceHandle> {
        match device_class(capability) {
            Some(kind) => self.slot(kind).handle,
            None => None,
        }
    }

    /// After a capability was revoked.
    pub open spec fn remove_capability(self, capability: Capability) -> PanelModel {
        match device_class(capability) {
            Some(kind) => self.with_slot(kind, self.slot(kind).after_revoke()),
            None => self,
        }
    }

    /// The event is addressed to the panel's own surface.
    pub open spec fn addressed(self, surface: SurfaceId) -> bool {
        surface == self.surface
    }

    /// After a keyboard event: focus follows enter and leave, the cancel key
    /// ends the session, and events for other surfaces change nothing.
    pub open spec fn keyboard_event(self, event: KeyboardEvent) -> PanelModel {
        if !self.addressed(event.surface) {
            self
        } else {
            match event.kind {
                KeyboardEventKind::Enter => PanelModel { keyboard_focus: true, ..self },
                KeyboardEventKind::Leave => PanelModel { keyboard_focus: false, ..self },
                KeyboardEventKind::Press { keysym } => PanelModel {
                    exit: self.exit || keysym == CANCEL_KEYSYM,
                    ..self
                },
                KeyboardEventKind::Release { .. } => self,
                KeyboardEventKind::Modifiers(_) => self,
            }
        }
    }

    /// After a pointer event: a press on the panel switches "shift", and
    /// nothing else changes anything.
    pub open spec fn pointer_event(self, event: PointerEvent) -> PanelModel {
        if self.addressed(event.surface) && event.kind is Press {
            PanelModel { shift: toggled(self.shift), ..self }
        } else {
            self
        }
    }

    /// After a batch of pointer events, taken in the order they came.
    pub open spec fn pointer_frame(self, events: Seq<PointerEvent>) -> PanelModel
        decreases events.len(),
    {
        if events.len() == 0 {
            self
        } else {
            self.pointer_frame(events.drop_last()).pointer_event(events.last())
        }
    }

    /// The backend's size is the size the compositor assigned.
    pub open spec fn reconciled(self, physical: Extent) -> bool {
        physical.visible() && physical.w == self.width && physical.h == self.height
    }

    /// What a request for a render cycle comes to: out of sequence while a
    /// cycle is in flight, a failed query where the backend's size is not the
    /// assigned one, and else the first command of the new cycle.
    pub open spec fn draw_outcome(self, physical: Extent) -> Result<RenderCommand, PanelError> {
        if self.cycle is Some {
            Err(PanelError::ProtocolDesync)
        } else if !self.reconciled(physical) {
            Err(PanelError::RenderFailure(RenderStage::Query))
        } else {
            Ok(FrameDescriptor::opening(physical).command())
        }
    }

    /// After a request for a render cycle.
    pub open spec fn draw(self, physical: Extent) -> PanelModel {
        if self.draw_outcome(physical) is Ok {
            PanelModel { cycle: Some(FrameDescriptor::opening(physical)), ..self }
        } else {
            self
        }
    }

    /// What the end of a step comes to: out of sequence where no cycle is in
    /// flight, a render failure at that step where it did not complete, and
    /// else the next command, or nothing once the frame is submitted.
    pub open spec fn step_outcome(self, completed: bool) -> Result<
        Option<RenderCommand>,
        PanelError,
    > {
        match self.cycle {
            None => Err(PanelError::ProtocolDesync),
            Some(frame) => if !completed {
                Err(PanelError::RenderFailure(frame.stage))
            } else {
                match frame.stage.following() {
                    Some(stage) => Ok(Some(frame.at(stage).command())),
                    None => Ok(None),
                }
            },
        }
    }

    /// After the end of a step: the cycle moves on, or is over.
    pub open spec fn render_step(self, completed: bool) -> PanelModel {
        match self.cycle {
            None => self,
            Some(frame) => if completed && frame.stage.following() is Some {
                PanelModel { cycle: Some(frame.at(frame.stage.following().unwrap())), ..self }
            } else {
                PanelModel { cycle: None, ..self }
            },
        }
    }

    /// The state after one event.
    pub open spec fn step(self, event: Event) -> PanelModel {
        match event {
            Event::Output(OutputEvent::New { logical_size }) => self.new_output(logical_size),
            Event::Output(_) => self,
            Event::Seat(SeatEvent::CapabilityAnnounced(capability)) => self.new_capability(
                capability,
            ),
            Event::Seat(SeatEvent::CapabilityRevoked(capability)) => self.remove_capability(
                capability,
            ),
            Event::Seat(SeatEvent::DeviceGranted { kind, handle }) => self.device_granted(
                kind,
                handle,
            ),
            Event::Seat(_) => self,
            Event::Surface(SurfaceEvent::Configure { width, height }) => self.configure(
                width as nat,
                height as nat,
            ),
            Event::Surface(SurfaceEvent::Closed) => self.closed(),
            Event::Surface(_) => self,
            Event::Keyboard(event) => self.keyboard_event(event),
            Event::Pointer(event) => self.pointer_event(event),
        }
    }

    /// What the panel asks for, or fails with, on one event.
    pub open spec fn reaction(self, event: Event) -> Result<Option<Action>, PanelError> {
        match event {
            Event::Output(OutputEvent::New { logical_size }) => Ok(
                match self.placement(logical_size) {
                    Some(placement) => Some(Action::Place(placement)),
                    None => None,
                },
            ),
            Event::Seat(SeatEvent::CapabilityAnnounced(capability)) => Ok(
                match self.wanted(capability) {
                    Some(kind) => Some(Action::Acquire(kind)),
                    None => None,
                },
            ),
            Event::Seat(SeatEvent::CapabilityRevoked(capability)) => Ok(
                match self.released(capability) {
                    Some(handle) => Some(Action::Release(handle)),
                    None => None,
                },
            ),
            Event::Seat(SeatEvent::DeviceGranted { kind, handle }) => Ok(
                match self.surplus(kind, handle) {
                    Some(handle) => Some(Action::Release(handle)),
                    None => None,
                },
            ),
            Event::Seat(SeatEvent::DeviceRefused { kind }) => match self.refusal(kind) {
                Ok(_) => Ok(None),
                Err(error) => Err(error),
            },
            Event::Surface(SurfaceEvent::Configure { .. }) => Ok(
                if self.first_configure {
                    Some(Action::Render)
                } else {
                    None
                },
            ),
            Event::Surface(SurfaceEvent::Frame) => Ok(Some(Action::Render)),
            _ => Ok(None),
        }
    }

    /// The state after a run of events, taken in the order they came.
    pub open spec fn replay(self, events: Seq<Event>) -> PanelModel
        decreases events.len(),
    {
        if events.len() == 0 {
            self
        } else {
            self.replay(events.drop_last()).step(events.last())
        }
    }

    /// What the dispatch loop does after a round: a failed dispatch is a
    /// protocol failure, a set flag ends the loop, and else it goes on.
    pub open spec fn loop_control(self, dispatched: bool) -> Result<Flow, PanelError> {
        if !dispatched {
            Err(PanelError::ProtocolDesync)
        } else if self.exit {
            Ok(Flow::Exit)
        } else {
            Ok(Flow::Continue)
        }
    }
}

} // verus!

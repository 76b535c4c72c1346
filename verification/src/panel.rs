//! The panel itself: the state behind one session, and the handlers that the
//! dispatch loop calls on it.

use vstd::prelude::*;
use crate::error::PanelError;
use crate::event::{Action, Event, Flow, OutputEvent, SeatEvent, SurfaceEvent};
use crate::geometry::Extent;
use crate::input::{
    xor, KeyboardEvent, KeyboardEventKind, Modifiers, PointerEvent, SurfaceId, CANCEL_KEYSYM,
    SHIFT_SENTINEL,
};
use crate::laws::{law_pointer_frame_keeps_soundness, law_pointer_frame_touches_only_shift};
use crate::model::PanelModel;
use crate::render::{FrameDescriptor, RenderCommand, RenderStage};
use crate::seat::{Capability, DeviceHandle, DeviceKind, DeviceSlot};
use crate::surface::{negotiate, place_on, Placement, FALLBACK_EXTENT};

verus! {

/// The panel of one session. The dispatch loop owns it and hands it to one
/// handler at a time.
pub struct YarrBar {
    surface: SurfaceId,
    width: u32,
    height: u32,
    exit: bool,
    first_configure: bool,
    shift: Option<u32>,
    keyboard: DeviceSlot,
    pointer: DeviceSlot,
    keyboard_focus: bool,
    placed: bool,
    cycle: Option<FrameDescriptor>,
}

/// What is left to release when a session ends.
#[derive(Clone, Copy, Debug, PartialEq, Eq)]
pub struct Teardown {
    /// The keyboard to give back to the seat, if one is held.
    pub keyboard: Option<DeviceHandle>,
    /// The pointer to give back to the seat, if one is held.
    pub pointer: Option<DeviceHandle>,
    /// The panel's surface, to destroy last.
    pub surface: SurfaceId,
}

impl View for YarrBar {
    type V = PanelModel;

    closed spec fn view(&self) -> PanelModel {
        PanelModel {
            surface: self.surface,
            width: self.width as nat,
            height: self.height as nat,
            exit: self.exit,
            first_configure: self.first_configure,
            shift: self.shift,
            keyboard: self.keyboard,
            pointer: self.pointer,
            keyboard_focus: self.keyboard_focus,
            placed: self.placed,
            cycle: self.cycle,
        }
    }
}

impl YarrBar {
    /// A panel for `surface` that has heard nothing from the compositor yet.
    pub fn new(surface: SurfaceId) -> (panel: YarrBar)
        ensures
            panel@ == PanelModel::initial(surface),
            panel@.wf(),
    {
        YarrBar {
            surface,
            width: FALLBACK_EXTENT,
            height: FALLBACK_EXTENT,
            exit: false,
            first_configure: true,
            shift: None,
            keyboard: DeviceSlot::new(),
            pointer: DeviceSlot::new(),
            keyboard_focus: false,
            placed: false,
            cycle: None,
        }
    }

    /// Records the size the compositor assigned, with the fallback in place
    /// of an open side, and says whether a render cycle is due: it is after
    /// the first configuration message, and after no other.
    pub fn configure(&mut self, new_size: (u32, u32)) -> (render: bool)
        ensures
            final(self)@ == old(self)@.configure(new_size.0 as nat, new_size.1 as nat),
            old(self)@.wf() ==> final(self)@.wf(),
            render == old(self)@.first_configure,
            final(self)@.width > 0,
            final(self)@.height > 0,
            new_size.0 == 0 || new_size.1 == 0 ==> final(self)@.width == FALLBACK_EXTENT
                && final(self)@.height == FALLBACK_EXTENT,
            new_size.0 != 0 && new_size.1 != 0 ==> final(self)@.width == new_size.0
                && final(self)@.height == new_size.1,
            !final(self)@.first_configure,
    {
        let size = negotiate(new_size.0, new_size.1);
        self.width = size.0;
        self.height = size.1;
        let render = self.first_configure;
        self.first_configure = false;
        render
    }

    /// The compositor closed the surface: the session is over.
    pub fn closed(&mut self)
        ensures
            final(self)@ == old(self)@.closed(),
            old(self)@.wf() ==> final(self)@.wf(),
            final(self)@.exit,
    {
        self.exit = true;
    }

    /// The compositor is ready for the next frame: a render cycle is due.
    pub fn frame(&self) -> (action: Action)
        ensures
            action == Action::Render,
            self@.reaction(Event::Surface(SurfaceEvent::Frame)) == Ok::<
                Option<Action>,
                PanelError,
            >(Some(action)),
    {
        Action::Render
    }

    /// An output showed up. The first time one comes with a logical size, the
    /// panel asks for its place on it: docked to the top edge, as wide as the
    /// output. It asks once in a session.
    pub fn new_output(&mut self, logical_size: Option<Extent>) -> (placement: Option<Placement>)
        ensures
            final(self)@ == old(self)@.new_output(logical_size),
            old(self)@.wf() ==> final(self)@.wf(),
            placement == old(self)@.placement(logical_size),
    {
        match logical_size {
            Some(size) => {
                if self.placed {
                    None
                } else {
                    self.placed = true;
                    Some(place_on(size))
                }
            },
            None => None,
        }
    }

    /// The seat announced a capability. Records that its class is on offer,
    /// and says which device to ask the seat for: one of that class, unless a
    /// handle of it is live already.
    pub fn new_capability(&mut self, capability: Capability) -> (request: Option<DeviceKind>)
        ensures
            final(self)@ == old(self)@.new_capability(capability),
            old(self)@.wf() ==> final(self)@.wf(),
            request == old(self)@.wanted(capability),
    {
        match capability.device_kind() {
            Some(DeviceKind::Keyboard) => if self.keyboard.announce() {
                Some(DeviceKind::Keyboard)
            } else {
                None
            },
            Some(DeviceKind::Pointer) => if self.pointer.announce() {
                Some(DeviceKind::Pointer)
            } else {
                None
            },
            None => None,
        }
    }

    /// The seat granted a device. The handle is taken where the seat offers
    /// the class and none of it is live; else it comes back for release.
    pub fn device_granted(&mut self, kind: DeviceKind, handle: DeviceHandle) -> (surplus: Option<
        DeviceHandle,
    >)
        ensures
            final(self)@ == old(self)@.device_granted(kind, handle),
            old(self)@.wf() ==> final(self)@.wf(),
            surplus == old(self)@.surplus(kind, handle),
    {
        match kind {
            DeviceKind::Keyboard => self.keyboard.grant(handle),
            DeviceKind::Pointer => self.pointer.grant(handle),
        }
    }

    /// The seat refused a device. That ends the session while the panel has
    /// never held a device of that class; once it has, the panel goes on
    /// without one until the capability is announced again.
    pub fn device_refused(&self, kind: DeviceKind) -> (outcome: Result<(), PanelError>)
        ensures
            outcome == self@.refusal(kind),
    {
        let established = match kind {
            DeviceKind::Keyboard => self.keyboard.established,
            DeviceKind::Pointer => self.pointer.established,
        };
        if established {
            Ok(())
        } else {
            Err(PanelError::CapabilityAcquisitionFailure(kind))
        }
    }

    /// The seat revoked a capability. Empties the slot of its class and hands
    /// out the handle it held, for release.
    pub fn remove_capability(&mut self, capability: Capability) -> (released: Option<
        DeviceHandle,
    >)
        ensures
            final(self)@ == old(self)@.remove_capability(capability),
            old(self)@.wf() ==> final(self)@.wf(),
            released == old(self)@.released(capability),
    {
        match capability.device_kind() {
            Some(DeviceKind::Keyboard) => self.keyboard.revoke(),
            Some(DeviceKind::Pointer) => self.pointer.revoke(),
            None => None,
        }
    }

    /// The keyboard's focus entered `surface`.
    pub fn enter(&mut self, surface: SurfaceId)
        ensures
            final(self)@ == old(self)@.keyboard_event(
                KeyboardEvent { surface, kind: KeyboardEventKind::Enter },
            ),
            old(self)@.wf() ==> final(self)@.wf(),
    {
        if self.surface.same(surface) {
            self.keyboard_focus = true;
        }
    }

    /// The keyboard's focus left `surface`.
    pub fn leave(&mut self, surface: SurfaceId)
        ensures
            final(self)@ == old(self)@.keyboard_event(
                KeyboardEvent { surface, kind: KeyboardEventKind::Leave },
            ),
            old(self)@.wf() ==> final(self)@.wf(),
    {
        if self.surface.same(surface) {
            self.keyboard_focus = false;
        }
    }

    /// A key went down on `surface`. The cancel key on the panel's own
    /// surface ends the session, wherever the focus is recorded to be.
    pub fn press_key(&mut self, surface: SurfaceId, keysym: u32)
        ensures
            final(self)@ == old(self)@.keyboard_event(
                KeyboardEvent { surface, kind: KeyboardEventKind::Press { keysym } },
            ),
            old(self)@.wf() ==> final(self)@.wf(),
            final(self)@.exit == (old(self)@.exit || (surface == old(self)@.surface && keysym
                == CANCEL_KEYSYM)),
    {
        if self.surface.same(surface) && keysym == CANCEL_KEYSYM {
            self.exit = true;
        }
    }

    /// A key came up on `surface`: nothing changes.
    pub fn release_key(&mut self, surface: SurfaceId, keysym: u32)
        ensures
            final(self)@ == old(self)@,
            final(self)@ == old(self)@.keyboard_event(
                KeyboardEvent { surface, kind: KeyboardEventKind::Release { keysym } },
            ),
    {
    }

    /// The modifier keys changed: nothing changes.
    pub fn update_modifiers(&mut self, surface: SurfaceId, modifiers: Modifiers)
        ensures
            final(self)@ == old(self)@,
            final(self)@ == old(self)@.keyboard_event(
                KeyboardEvent { surface, kind: KeyboardEventKind::Modifiers(modifiers) },
            ),
    {
    }

    /// Routes one keyboard event.
    pub fn keyboard_event(&mut self, event: KeyboardEvent)
        ensures
            final(self)@ == old(self)@.keyboard_event(event),
            old(self)@.wf() ==> final(self)@.wf(),
    {
        match event.kind {
            KeyboardEventKind::Enter => self.enter(event.surface),
            KeyboardEventKind::Leave => self.leave(event.surface),
            KeyboardEventKind::Press { keysym } => self.press_key(event.surface, keysym),
            KeyboardEventKind::Release { keysym } => self.release_key(event.surface, keysym),
            KeyboardEventKind::Modifiers(modifiers) => self.update_modifiers(
                event.surface,
                modifiers,
            ),
        }
    }

    /// Routes one pointer event. A press on the panel's own surface switches
    /// "shift" between unset and the sentinel; every other event, and every
    /// event for another surface, changes nothing.
    pub fn pointer_event(&mut self, event: PointerEvent)
        ensures
            final(self)@ == old(self)@.pointer_event(event),
            old(self)@.wf() ==> final(self)@.wf(),
    {
        if self.surface.same(event.surface) && event.is_press() {
            self.shift = xor(self.shift, Some(SHIFT_SENTINEL));
        }
    }

    /// Routes a batch of pointer events in the order they came.
    pub fn pointer_frame(&mut self, events: &[PointerEvent])
        ensures
            final(self)@ == old(self)@.pointer_frame(events@),
            old(self)@.wf() ==> final(self)@.wf(),
            old(self)@.exit ==> final(self)@.exit,
    {
        let ghost start = self@;
        let mut i: usize = 0;
        while i < events.len()
            invariant
                i <= events@.len(),
                self@ == start.pointer_frame(events@.take(i as int)),
            decreases events@.len() - i,
        {
            assert(events@.take(i + 1).drop_last() == events@.take(i as int));
            assert(events@.take(i + 1).last() == events@[i as int]);
            self.pointer_event(events[i]);
            i = i + 1;
        }
        assert(events@.take(i as int) == events@);
        proof {
            law_pointer_frame_touches_only_shift(start, events@);
            if start.wf() {
                law_pointer_frame_keeps_soundness(start, events@);
            }
        }
    }

    /// Starts a render cycle on the backend's physical size and gives its
    /// first command. A cycle already in flight makes the request out of
    /// sequence; a size that is empty or not the one the compositor assigned
    /// fails the cycle at the query. In both cases nothing changes.
    pub fn draw(&mut self, physical: Extent) -> (outcome: Result<RenderCommand, PanelError>)
        ensures
            final(self)@ == old(self)@.draw(physical),
            old(self)@.wf() ==> final(self)@.wf(),
            old(self)@.exit ==> final(self)@.exit,
            outcome == old(self)@.draw_outcome(physical),
            outcome is Ok <==> old(self)@.cycle is None && old(self)@.reconciled(physical),
            outcome is Ok ==> final(self)@.cycle == Some(FrameDescriptor::opening(physical))
                && final(self)@.cycle.unwrap().wf(),
    {
        if self.cycle.is_some() {
            return Err(PanelError::ProtocolDesync);
        }
        if !(physical.w > 0 && physical.h > 0 && physical.w as u32 == self.width && physical.h as u32
            == self.height) {
            return Err(PanelError::RenderFailure(RenderStage::Query));
        }
        let frame = FrameDescriptor::open(physical);
        let command = frame.next_command();
        self.cycle = Some(frame);
        Ok(command)
    }

    /// Takes the end of the step in progress. A step that did not complete
    /// ends the cycle with a render failure at that step, and nothing more is
    /// commanded: no part of the frame is submitted. A completed step gives
    /// the next command; after submission the cycle is over.
    pub fn render_step(&mut self, completed: bool) -> (outcome: Result<
        Option<RenderCommand>,
        PanelError,
    >)
        ensures
            final(self)@ == old(self)@.render_step(completed),
            old(self)@.wf() ==> final(self)@.wf(),
            old(self)@.exit ==> final(self)@.exit,
            outcome == old(self)@.step_outcome(completed),
            outcome is Err ==> final(self)@.cycle is None,
    {
        match self.cycle {
            None => Err(PanelError::ProtocolDesync),
            Some(frame) => {
                if !completed {
                    self.cycle = None;
                    Err(PanelError::RenderFailure(frame.stage))
                } else {
                    match frame.stage.next() {
                        Some(stage) => {
                            let moved = FrameDescriptor { stage, ..frame };
                            self.cycle = Some(moved);
                            Ok(Some(moved.next_command()))
                        },
                        None => {
                            self.cycle = None;
                            Ok(None)
                        },
                    }
                }
            },
        }
    }

    /// Takes one event from the compositor and says what to do about it.
    pub fn dispatch(&mut self, event: Event) -> (reaction: Result<Option<Action>, PanelError>)
        ensures
            final(self)@ == old(self)@.step(event),
            old(self)@.wf() ==> final(self)@.wf(),
            reaction == old(self)@.reaction(event),
            old(self)@.exit ==> final(self)@.exit,
    {
        match event {
            Event::Output(OutputEvent::New { logical_size }) => {
                match self.new_output(logical_size) {
                    Some(placement) => Ok(Some(Action::Place(placement))),
                    None => Ok(None),
                }
            },
            Event::Output(_) => Ok(None),
            Event::Seat(SeatEvent::CapabilityAnnounced(capability)) => {
                match self.new_capability(capability) {
                    Some(kind) => Ok(Some(Action::Acquire(kind))),
                    None => Ok(None),
                }
            },
            Event::Seat(SeatEvent::CapabilityRevoked(capability)) => {
                match self.remove_capability(capability) {
                    Some(handle) => Ok(Some(Action::Release(handle))),
                    None => Ok(None),
                }
            },
            Event::Seat(SeatEvent::DeviceGranted { kind, handle }) => {
                match self.device_granted(kind, handle) {
                    Some(surplus) => Ok(Some(Action::Release(surplus))),
                    None => Ok(None),
                }
            },
            Event::Seat(SeatEvent::DeviceRefused { kind }) => {
                match self.device_refused(kind) {
                    Ok(_) => Ok(None),
                    Err(error) => Err(error),
                }
            },
            Event::Seat(_) => Ok(None),
            Event::Surface(SurfaceEvent::Configure { width, height }) => {
                if self.configure((width, height)) {
                    Ok(Some(Action::Render))
                } else {
                    Ok(None)
                }
            },
            Event::Surface(SurfaceEvent::Closed) => {
                self.closed();
                Ok(None)
            },
            Event::Surface(SurfaceEvent::Frame) => Ok(Some(self.frame())),
            Event::Surface(_) => Ok(None),
            Event::Keyboard(event) => {
                self.keyboard_event(event);
                Ok(None)
            },
            Event::Pointer(event) => {
                self.pointer_event(event);
                Ok(None)
            },
        }
    }

    /// Decides, after a round of dispatch, whether the loop goes round again.
    /// A round that failed is a protocol failure. Otherwise the loop ends as
    /// soon as the termination flag is set.
    pub fn loop_control(&self, dispatched: bool) -> (flow: Result<Flow, PanelError>)
        ensures
            flow == self@.loop_control(dispatched),
            dispatched && self@.exit ==> flow == Ok::<Flow, PanelError>(Flow::Exit),
    {
        if !dispatched {
            Err(PanelError::ProtocolDesync)
        } else if self.exit {
            Ok(Flow::Exit)
        } else {
            Ok(Flow::Continue)
        }
    }

    /// Ends the session: gives up the panel and lists what it held, for
    /// release.
    pub fn shutdown(self) -> (teardown: Teardown)
        ensures
            teardown == (Teardown {
                keyboard: self@.keyboard.handle,
                pointer: self@.pointer.handle,
                surface: self@.surface,
            }),
    {
        Teardown { keyboard: self.keyboard.handle, pointer: self.pointer.handle, surface: self.surface }
    }

    /// The panel's own surface.
    pub fn surface(&self) -> (surface: SurfaceId)
        ensures
            surface == self@.surface,
    {
        self.surface
    }

    /// The width the compositor assigned, in pixels.
    pub fn width(&self) -> (width: u32)
        ensures
            width == self@.width,
    {
        self.width
    }

    /// The height the compositor assigned, in pixels.
    pub fn height(&self) -> (height: u32)
        ensures
            height == self@.height,
    {
        self.height
    }

    /// Whether the session is over.
    pub fn exit(&self) -> (exit: bool)
        ensures
            exit == self@.exit,
    {
        self.exit
    }

    /// Whether the first configuration message is still to come.
    pub fn first_configure(&self) -> (first: bool)
        ensures
            first == self@.first_configure,
    {
        self.first_configure
    }

    /// The value that pointer presses switch on and off.
    pub fn shift(&self) -> (shift: Option<u32>)
        ensures
            shift == self@.shift,
    {
        self.shift
    }

    /// The live keyboard handle, if there is one.
    pub fn keyboard(&self) -> (handle: Option<DeviceHandle>)
        ensures
            handle == self@.keyboard.handle,
    {
        self.keyboard.handle
    }

    /// The live pointer handle, if there is one.
    pub fn pointer(&self) -> (handle: Option<DeviceHandle>)
        ensures
            handle == self@.pointer.handle,
    {
        self.pointer.handle
    }

    /// Whether the seat offers a device of this class.
    pub fn seat_offers(&self, kind: DeviceKind) -> (offered: bool)
        ensures
            offered == self@.offered(kind),
    {
        match kind {
            DeviceKind::Keyboard => self.keyboard.announced,
            DeviceKind::Pointer => self.pointer.announced,
        }
    }

    /// Whether the keyboard's focus is on the panel.
    pub fn keyboard_focus(&self) -> (focus: bool)
        ensures
            focus == self@.keyboard_focus,
    {
        self.keyboard_focus
    }

    /// The frame of the render cycle in flight, if there is one.
    pub fn frame_in_flight(&self) -> (frame: Option<FrameDescriptor>)
        ensures
            frame == self@.cycle,
    {
        self.cycle
    }
}

} // verus!

//! What holds of the panel over every run of events.

use vstd::prelude::*;
use crate::error::PanelError;
use crate::event::{Action, Event, Flow, SeatEvent, SurfaceEvent};
use crate::geometry::Extent;
use crate::input::{
    KeyboardEvent, KeyboardEventKind, PointerEvent, SurfaceId, CANCEL_KEYSYM, SHIFT_SENTINEL,
};
use crate::model::PanelModel;
use crate::render::{RenderCommand, RenderStage};
use crate::seat::{device_class, Capability, DeviceHandle, DeviceKind};
use crate::surface::FALLBACK_EXTENT;

verus! {

/// One turn of the seat, as the panel sees it: a capability is announced and
/// the seat stands ready to grant `offered`, or a capability is revoked.
pub enum SeatChange {
    Announced { capability: Capability, offered: DeviceHandle },
    Revoked { capability: Capability },
}

/// The event is a configuration message.
pub open spec fn is_configure(event: Event) -> bool {
    event is Surface && event->Surface_0 is Configure
}

/// The event is a refusal of a device.
pub open spec fn is_refusal(event: Event) -> bool {
    event is Seat && event->Seat_0 is DeviceRefused
}

/// The panel answers the event with a request for its place on an output.
pub open spec fn asks_for_place(state: PanelModel, event: Event) -> bool {
    state.reaction(event) is Ok && state.reaction(event)->Ok_0 is Some && state.reaction(
        event,
    )->Ok_0->Some_0 is Place
}

/// No event up to `end` is a configuration message.
pub open spec fn none_configures(events: Seq<Event>, end: int) -> bool {
    forall|j: int| 0 <= j < end && j < events.len() ==> !is_configure(#[trigger] events[j])
}

/// The state after one turn of the seat. An announcement is followed by the
/// grant of the offered device where the panel asks for one.
pub open spec fn seat_turn(state: PanelModel, change: SeatChange) -> PanelModel {
    match change {
        SeatChange::Announced { capability, offered } => {
            let announced = Event::Seat(SeatEvent::CapabilityAnnounced(capability));
            match state.reaction(announced) {
                Ok(Some(Action::Acquire(kind))) => state.step(announced).step(
                    Event::Seat(SeatEvent::DeviceGranted { kind, handle: offered }),
                ),
                _ => state.step(announced),
            }
        },
        SeatChange::Revoked { capability } => state.step(
            Event::Seat(SeatEvent::CapabilityRevoked(capability)),
        ),
    }
}

/// The state after a run of turns of the seat.
pub open spec fn seat_run(state: PanelModel, changes: Seq<SeatChange>) -> PanelModel
    decreases changes.len(),
{
    if changes.len() == 0 {
        state
    } else {
        seat_turn(seat_run(state, changes.drop_last()), changes.last())
    }
}

/// Whether the seat offers a device class at the end of a run of turns: as
/// the last turn that spoke of the class left it, or as it was `before`.
pub open spec fn offered_last(changes: Seq<SeatChange>, kind: DeviceKind, before: bool) -> bool
    decreases changes.len(),
{
    if changes.len() == 0 {
        before
    } else {
        match changes.last() {
            SeatChange::Announced { capability, .. } => device_class(capability) == Some(kind)
                || offered_last(changes.drop_last(), kind, before),
            SeatChange::Revoked { capability } => device_class(capability) != Some(kind)
                && offered_last(changes.drop_last(), kind, before),
        }
    }
}

/// The number of presses in a batch of pointer events that are addressed to
/// `surface`.
pub open spec fn presses_on(events: Seq<PointerEvent>, surface: SurfaceId) -> nat
    decreases events.len(),
{
    if events.len() == 0 {
        0
    } else {
        presses_on(events.drop_last(), surface) + if events.last().surface == surface
            && events.last().kind is Press {
            1nat
        } else {
            0nat
        }
    }
}

/// The state after the steps of a render cycle ended as `outcomes` tells.
pub open spec fn cycle_run(state: PanelModel, outcomes: Seq<bool>) -> PanelModel
    decreases outcomes.len(),
{
    if outcomes.len() == 0 {
        state
    } else {
        cycle_run(state, outcomes.drop_last()).render_step(outcomes.last())
    }
}

/// A fresh panel is sound.
pub proof fn law_initial_is_sound(surface: SurfaceId)
    ensures
        PanelModel::initial(surface).wf(),
{
}

/// Every event leaves a sound panel sound. In particular its size is never
/// empty, whatever the compositor proposes.
pub proof fn law_step_keeps_soundness(state: PanelModel, event: Event)
    requires
        state.wf(),
    ensures
        state.step(event).wf(),
        state.step(event).width > 0,
        state.step(event).height > 0,
{
}

/// Every run of events leaves a sound panel sound.
pub proof fn law_replay_keeps_soundness(state: PanelModel, events: Seq<Event>)
    requires
        state.wf(),
    ensures
        state.replay(events).wf(),
    decreases events.len(),
{
    if events.len() > 0 {
        law_replay_keeps_soundness(state, events.drop_last());
        law_step_keeps_soundness(state.replay(events.drop_last()), events.last());
    }
}

/// A batch of pointer events touches nothing but "shift".
pub proof fn law_pointer_frame_touches_only_shift(state: PanelModel, events: Seq<PointerEvent>)
    ensures
        state.pointer_frame(events) == (PanelModel {
            shift: state.pointer_frame(events).shift,
            ..state
        }),
    decreases events.len(),
{
    if events.len() > 0 {
        law_pointer_frame_touches_only_shift(state, events.drop_last());
    }
}

/// A batch of pointer events leaves a sound panel sound.
pub proof fn law_pointer_frame_keeps_soundness(state: PanelModel, events: Seq<PointerEvent>)
    requires
        state.wf(),
    ensures
        state.pointer_frame(events).wf(),
    decreases events.len(),
{
    if events.len() > 0 {
        law_pointer_frame_keeps_soundness(state, events.drop_last());
    }
}

/// Starting a render cycle and ending a step touch nothing but the cycle.
pub proof fn law_rendering_touches_only_the_cycle(
    state: PanelModel,
    physical: Extent,
    completed: bool,
)
    ensures
        state.draw(physical) == (PanelModel { cycle: state.draw(physical).cycle, ..state }),
        state.render_step(completed) == (PanelModel {
            cycle: state.render_step(completed).cycle,
            ..state
        }),
{
}

/// Starting a render cycle and ending a step leave a sound panel sound.
pub proof fn law_rendering_keeps_soundness(state: PanelModel, physical: Extent, completed: bool)
    requires
        state.wf(),
    ensures
        state.draw(physical).wf(),
        state.render_step(completed).wf(),
{
}

/// A handle of a device class is live exactly when, of all the turns of the
/// seat so far, the last one that spoke of the class announced it; and the
/// same holds of what the panel takes the seat to offer.
pub proof fn law_handle_follows_announcement(
    state: PanelModel,
    changes: Seq<SeatChange>,
    kind: DeviceKind,
)
    ensures
        state.wf() ==> seat_run(state, changes).wf(),
        seat_run(state, changes).holds(kind) == offered_last(changes, kind, state.holds(kind)),
        seat_run(state, changes).offered(kind) == offered_last(
            changes,
            kind,
            state.offered(kind),
        ),
    decreases changes.len(),
{
    if changes.len() > 0 {
        law_handle_follows_announcement(state, changes.drop_last(), kind);
    }
}

/// On a fresh panel, after every run of turns of the seat, a handle of a
/// device class is live exactly when the seat offers the class: when the
/// class was announced and not revoked since.
pub proof fn law_fresh_panel_holds_what_is_offered(
    surface: SurfaceId,
    changes: Seq<SeatChange>,
    kind: DeviceKind,
)
    ensures
        seat_run(PanelModel::initial(surface), changes).holds(kind) == offered_last(
            changes,
            kind,
            false,
        ),
        seat_run(PanelModel::initial(surface), changes).holds(kind) == seat_run(
            PanelModel::initial(surface),
            changes,
        ).offered(kind),
{
    law_handle_follows_announcement(PanelModel::initial(surface), changes, kind);
}

/// Through every run of events, whatever the seat answers and in whatever
/// order, a live handle is one of a class that the seat offers.
pub proof fn law_no_handle_without_offer(state: PanelModel, events: Seq<Event>, kind: DeviceKind)
    requires
        state.wf(),
    ensures
        state.replay(events).holds(kind) ==> state.replay(events).offered(kind),
{
    law_replay_keeps_soundness(state, events);
}

/// A configuration message that leaves a side open records the fallback
/// size, and no configuration message records an empty size.
pub proof fn law_open_size_falls_back(state: PanelModel, width: nat, height: nat)
    ensures
        width == 0 || height == 0 ==> state.configure(width, height).width == FALLBACK_EXTENT
            && state.configure(width, height).height == FALLBACK_EXTENT,
        width != 0 && height != 0 ==> state.configure(width, height).width == width
            && state.configure(width, height).height == height,
        state.configure(width, height).width != 0,
        state.configure(width, height).height != 0,
{
}

/// Only a configuration message changes the recorded size.
pub proof fn law_only_configuration_sets_size(state: PanelModel, event: Event)
    requires
        !is_configure(event),
    ensures
        state.step(event).width == state.width,
        state.step(event).height == state.height,
{
}

/// Nothing but a refused device makes an event fail: input for another
/// surface, a revocation of what is not held and a seat that goes away are
/// all taken in silence.
pub proof fn law_only_a_refusal_fails(state: PanelModel, event: Event)
    ensures
        state.reaction(event) is Err ==> is_refusal(event),
        event is Keyboard || event is Pointer ==> state.reaction(event) == Ok::<
            Option<Action>,
            PanelError,
        >(None),
{
}

/// News of the seat never sets off a render cycle, and touches nothing but
/// the device slots.
pub proof fn law_seat_events_only_move_devices(state: PanelModel, event: Event)
    requires
        event is Seat,
    ensures
        state.reaction(event) != Ok::<Option<Action>, PanelError>(Some(Action::Render)),
        state.step(event) == (PanelModel {
            keyboard: state.step(event).keyboard,
            pointer: state.step(event).pointer,
            ..state
        }),
{
}

/// The panel's surface is the same through every run of events.
pub proof fn law_surface_is_fixed(state: PanelModel, events: Seq<Event>)
    ensures
        state.replay(events).surface == state.surface,
    decreases events.len(),
{
    if events.len() > 0 {
        law_surface_is_fixed(state, events.drop_last());
    }
}

/// Once the panel has asked for its place, it has asked for good.
pub proof fn law_placed_stays_placed(state: PanelModel, events: Seq<Event>)
    requires
        state.placed,
    ensures
        state.replay(events).placed,
    decreases events.len(),
{
    if events.len() > 0 {
        law_placed_stays_placed(state, events.drop_last());
    }
}

/// In a run of events the panel asks for its place at most once: if it asks
/// on one event, it asks on no later one.
pub proof fn law_place_is_asked_once(state: PanelModel, events: Seq<Event>, i: int, j: int)
    requires
        0 <= i < j < events.len(),
        asks_for_place(state.replay(events.take(i)), events[i]),
    ensures
        !asks_for_place(state.replay(events.take(j)), events[j]),
{
    let asked = state.replay(events.take(i)).step(events[i]);
    assert(events.take(i + 1).drop_last() == events.take(i));
    assert(events.take(i + 1).last() == events[i]);
    assert(state.replay(events.take(i + 1)) == asked);
    assert(asked.placed);
    let between = events.subrange(i + 1, j);
    lemma_replay_splits(state, events.take(i + 1), between);
    assert(events.take(i + 1) + between == events.take(j));
    law_placed_stays_placed(asked, between);
}

/// Replaying one run after another is replaying them joined.
pub proof fn lemma_replay_splits(state: PanelModel, first: Seq<Event>, second: Seq<Event>)
    ensures
        state.replay(first + second) == state.replay(first).replay(second),
    decreases second.len(),
{
    if second.len() == 0 {
        assert(first + second == first);
    } else {
        lemma_replay_splits(state, first, second.drop_last());
        assert((first + second).drop_last() == first + second.drop_last());
        assert((first + second).last() == second.last());
    }
}

/// The first configuration message is still to come exactly when it was at
/// the start and no event since was one.
pub proof fn law_first_configure_waits(state: PanelModel, events: Seq<Event>)
    ensures
        state.replay(events).first_configure == (state.first_configure && none_configures(
            events,
            events.len() as int,
        )),
    decreases events.len(),
{
    if events.len() > 0 {
        let front = events.drop_last();
        law_first_configure_waits(state, front);
        assert forall|j: int| 0 <= j < front.len() implies front[j] == events[j] by {}
        if none_configures(events, events.len() as int) {
            assert(!is_configure(events[events.len() - 1]));
            assert forall|j: int| 0 <= j < front.len() && j < front.len() implies !is_configure(
                #[trigger] front[j],
            ) by {
                assert(front[j] == events[j]);
            }
        }
        if state.replay(events).first_configure {
            assert(none_configures(front, front.len() as int));
            assert forall|j: int| 0 <= j < events.len() && j < events.len() implies !is_configure(
                #[trigger] events[j],
            ) by {
                if j < front.len() {
                    assert(front[j] == events[j]);
                }
            }
        }
    }
}

/// In a run of events on a fresh panel, a configuration message sets off a
/// render cycle exactly when no configuration message came before it: the
/// first one does, and only the first.
pub proof fn law_first_configure_renders_once(state: PanelModel, events: Seq<Event>, i: int)
    requires
        state.first_configure,
        0 <= i < events.len(),
        is_configure(events[i]),
    ensures
        state.replay(events.take(i)).reaction(events[i]) == Ok::<Option<Action>, PanelError>(
            Some(Action::Render),
        ) <==> none_configures(events, i),
        !none_configures(events, i) ==> state.replay(events.take(i)).reaction(events[i]) == Ok::<
            Option<Action>,
            PanelError,
        >(None),
{
    let before = events.take(i);
    law_first_configure_waits(state, before);
    assert forall|j: int| 0 <= j < i implies before[j] == events[j] by {}
    if none_configures(events, i) {
        assert forall|j: int| 0 <= j < before.len() && j < before.len() implies !is_configure(
            #[trigger] before[j],
        ) by {
            assert(before[j] == events[j]);
        }
    }
    if none_configures(before, before.len() as int) {
        assert forall|j: int| 0 <= j < i && j < events.len() implies !is_configure(
            #[trigger] events[j],
        ) by {
            assert(before[j] == events[j]);
        }
    }
}

/// Once the termination flag is set, no run of events clears it, and the
/// dispatch loop ends at its next look at the flag.
pub proof fn law_termination_is_permanent(state: PanelModel, events: Seq<Event>)
    requires
        state.exit,
    ensures
        state.replay(events).exit,
        state.replay(events).loop_control(true) == Ok::<Flow, PanelError>(Flow::Exit),
    decreases events.len(),
{
    if events.len() > 0 {
        law_termination_is_permanent(state, events.drop_last());
    }
}

/// A close signal sets the termination flag, and it stays set through every
/// run of events that follows.
pub proof fn law_close_ends_the_session(state: PanelModel, events: Seq<Event>)
    ensures
        state.step(Event::Surface(SurfaceEvent::Closed)).exit,
        state.step(Event::Surface(SurfaceEvent::Closed)).replay(events).exit,
{
    law_termination_is_permanent(state.step(Event::Surface(SurfaceEvent::Closed)), events);
}

/// A press on the panel's surface switches "shift" between unset and the
/// sentinel, and a second press undoes the first.
pub proof fn law_press_toggles_shift(state: PanelModel, press: PointerEvent)
    requires
        state.wf(),
        press.surface == state.surface,
        press.kind is Press,
    ensures
        state.shift is None ==> state.pointer_event(press).shift == Some(SHIFT_SENTINEL),
        state.shift is Some ==> state.pointer_event(press).shift is None,
        state.pointer_event(press).pointer_event(press) == state,
{
}

/// A pointer event that is no press, or is addressed to another surface,
/// changes nothing.
pub proof fn law_other_pointer_events_are_ignored(state: PanelModel, event: PointerEvent)
    requires
        event.surface != state.surface || !(event.kind is Press),
    ensures
        state.pointer_event(event) == state,
{
}

/// After a batch of pointer events "shift" is as before where the presses on
/// the panel's surface were even in number, and switched where they were
/// odd.
pub proof fn law_frame_switches_on_odd_presses(state: PanelModel, events: Seq<PointerEvent>)
    requires
        state.wf(),
    ensures
        presses_on(events, state.surface) % 2 == 0 ==> state.pointer_frame(events) == state,
        presses_on(events, state.surface) % 2 == 1 ==> state.pointer_frame(events) == (PanelModel {
            shift: if state.shift is None {
                Some(SHIFT_SENTINEL)
            } else {
                None
            },
            ..state
        }),
    decreases events.len(),
{
    if events.len() > 0 {
        law_frame_switches_on_odd_presses(state, events.drop_last());
    }
}

/// The cancel key, pressed on the panel's surface, sets the termination flag
/// whatever the focus is recorded to be, and pressing it again changes
/// nothing.
pub proof fn law_cancel_key_ends_the_session(state: PanelModel, focus: bool)
    ensures
        ({
            let press = KeyboardEvent {
                surface: state.surface,
                kind: KeyboardEventKind::Press { keysym: CANCEL_KEYSYM },
            };
            let anywhere = PanelModel { keyboard_focus: focus, ..state };
            &&& anywhere.keyboard_event(press) == PanelModel { exit: true, ..anywhere }
            &&& anywhere.keyboard_event(press).keyboard_event(press) == anywhere.keyboard_event(
                press,
            )
        }),
{
}

/// A keyboard event for another surface changes nothing.
pub proof fn law_foreign_keys_are_ignored(state: PanelModel, event: KeyboardEvent)
    requires
        event.surface != state.surface,
    ensures
        state.keyboard_event(event) == state,
{
}

/// Submission is the last thing a frame is up for: the frame in flight is
/// commanded to the compositor only once its texture is painted, its context
/// bound and the texture drawn onto it.
pub proof fn law_submission_comes_last(state: PanelModel, completed: bool)
    requires
        state.step_outcome(completed) == Ok::<Option<RenderCommand>, PanelError>(
            Some(RenderCommand::Submit),
        ),
    ensures
        completed,
        state.cycle is Some,
        state.cycle.unwrap().stage == RenderStage::Composite,
        state.render_step(completed).cycle is Some,
        state.render_step(completed).cycle.unwrap().painted(),
        state.render_step(completed).cycle.unwrap().bound(),
        state.render_step(completed).cycle.unwrap().composited(),
{
}

/// While a render cycle is in flight, every step before the one it is at has
/// completed: the frame reaches submission only after the paint, the bind,
/// the begin, the clear and the composite all succeeded. After a step that
/// failed, no cycle is in flight.
pub proof fn law_stage_counts_completed_steps(
    state: PanelModel,
    physical: Extent,
    outcomes: Seq<bool>,
)
    requires
        state.draw_outcome(physical) is Ok,
    ensures
        cycle_run(state.draw(physical), outcomes).cycle is Some ==> {
            &&& forall|i: int| 0 <= i < outcomes.len() ==> outcomes[i]
            &&& cycle_run(state.draw(physical), outcomes).cycle.unwrap().stage.ordinal()
                == RenderStage::Paint.ordinal() + outcomes.len()
            &&& cycle_run(state.draw(physical), outcomes).cycle.unwrap().target == physical
        },
        (exists|i: int| 0 <= i < outcomes.len() && !outcomes[i]) ==> cycle_run(
            state.draw(physical),
            outcomes,
        ).cycle is None,
    decreases outcomes.len(),
{
    if outcomes.len() > 0 {
        let front = outcomes.drop_last();
        law_stage_counts_completed_steps(state, physical, front);
        assert forall|i: int| 0 <= i < front.len() implies front[i] == outcomes[i] by {}
        if cycle_run(state.draw(physical), outcomes).cycle is Some {
            assert(cycle_run(state.draw(physical), front).cycle is Some);
            assert(outcomes.last());
            assert forall|i: int| 0 <= i < outcomes.len() implies outcomes[i] by {
                if i < front.len() {
                    assert(front[i] == outcomes[i]);
                }
            }
        }
    }
}

} // verus!

use yarrbar::error::PanelError;
use yarrbar::event::{Action, Event, SeatEvent};
use yarrbar::input::SurfaceId;
use yarrbar::seat::{Capability, DeviceHandle, DeviceKind, DeviceSlot};
use yarrbar::YarrBar;

const PANEL: SurfaceId = SurfaceId { id: 1 };

/// Replays announcements and revocations of the keyboard, granting a device
/// with a new id whenever the panel asks for one.
fn replay_keyboard(panel: &mut YarrBar, announcements: &[bool]) {
    let mut next_id = 100;
    for &announce in announcements {
        if announce {
            if let Some(kind) = panel.new_capability(Capability::Keyboard) {
                assert_eq!(panel.device_granted(kind, DeviceHandle { id: next_id }), None);
                next_id += 1;
            }
        } else {
            panel.remove_capability(Capability::Keyboard);
        }
    }
}

#[test]
fn handle_is_live_iff_last_announced() {
    let runs: [&[bool]; 8] = [
        &[],
        &[true],
        &[false],
        &[true, false],
        &[false, true],
        &[true, true, false, false, true],
        &[true, false, true, false, true, false],
        &[false, false, true, true, true],
    ];
    for run in runs {
        let mut panel = YarrBar::new(PANEL);
        replay_keyboard(&mut panel, run);
        let expected = run.last().copied().unwrap_or(false);
        assert_eq!(panel.keyboard().is_some(), expected, "run {:?}", run);
        assert_eq!(panel.seat_offers(DeviceKind::Keyboard), expected, "run {:?}", run);
        assert_eq!(panel.pointer(), None);
        assert!(!panel.seat_offers(DeviceKind::Pointer));
    }
}

#[test]
fn classes_are_tracked_apart() {
    let mut panel = YarrBar::new(PANEL);
    assert_eq!(panel.new_capability(Capability::Pointer), Some(DeviceKind::Pointer));
    assert_eq!(panel.device_granted(DeviceKind::Pointer, DeviceHandle { id: 9 }), None);
    assert_eq!(panel.new_capability(Capability::Keyboard), Some(DeviceKind::Keyboard));
    assert_eq!(panel.device_granted(DeviceKind::Keyboard, DeviceHandle { id: 10 }), None);
    assert_eq!(panel.remove_capability(Capability::Pointer), Some(DeviceHandle { id: 9 }));
    assert_eq!(panel.pointer(), None);
    assert_eq!(panel.keyboard(), Some(DeviceHandle { id: 10 }));
}

#[test]
fn reannouncement_with_a_live_handle_asks_for_nothing() {
    let mut panel = YarrBar::new(PANEL);
    assert_eq!(panel.new_capability(Capability::Keyboard), Some(DeviceKind::Keyboard));
    panel.device_granted(DeviceKind::Keyboard, DeviceHandle { id: 5 });
    assert_eq!(panel.new_capability(Capability::Keyboard), None);
    assert_eq!(
        panel.dispatch(Event::Seat(SeatEvent::CapabilityAnnounced(Capability::Keyboard))),
        Ok(None)
    );
    assert_eq!(panel.keyboard(), Some(DeviceHandle { id: 5 }));
}

#[test]
fn second_grant_comes_back_for_release() {
    let mut panel = YarrBar::new(PANEL);
    assert_eq!(panel.new_capability(Capability::Pointer), Some(DeviceKind::Pointer));
    assert_eq!(panel.device_granted(DeviceKind::Pointer, DeviceHandle { id: 5 }), None);
    assert_eq!(
        panel.device_granted(DeviceKind::Pointer, DeviceHandle { id: 6 }),
        Some(DeviceHandle { id: 6 })
    );
    assert_eq!(panel.pointer(), Some(DeviceHandle { id: 5 }));
    let again = Event::Seat(SeatEvent::DeviceGranted { kind: DeviceKind::Pointer, handle: DeviceHandle { id: 7 } });
    assert_eq!(panel.dispatch(again), Ok(Some(Action::Release(DeviceHandle { id: 7 }))));
    assert_eq!(panel.pointer(), Some(DeviceHandle { id: 5 }));
}

#[test]
fn grant_of_what_the_seat_does_not_offer_comes_back() {
    let mut panel = YarrBar::new(PANEL);
    assert_eq!(
        panel.device_granted(DeviceKind::Keyboard, DeviceHandle { id: 5 }),
        Some(DeviceHandle { id: 5 })
    );
    assert_eq!(panel.keyboard(), None);

    panel.new_capability(Capability::Keyboard);
    panel.remove_capability(Capability::Keyboard);
    let late = Event::Seat(SeatEvent::DeviceGranted { kind: DeviceKind::Keyboard, handle: DeviceHandle { id: 6 } });
    assert_eq!(panel.dispatch(late), Ok(Some(Action::Release(DeviceHandle { id: 6 }))));
    assert_eq!(panel.keyboard(), None);
    assert!(!panel.seat_offers(DeviceKind::Keyboard));
}

#[test]
fn announcement_is_recorded_before_the_grant() {
    let mut panel = YarrBar::new(PANEL);
    assert!(!panel.seat_offers(DeviceKind::Pointer));
    panel.new_capability(Capability::Pointer);
    assert!(panel.seat_offers(DeviceKind::Pointer));
    assert!(!panel.seat_offers(DeviceKind::Keyboard));
    assert_eq!(panel.pointer(), None);
    // Still without a handle, the panel asks again when the class is announced again.
    assert_eq!(panel.new_capability(Capability::Pointer), Some(DeviceKind::Pointer));
}

#[test]
fn touch_is_not_tracked() {
    let mut panel = YarrBar::new(PANEL);
    assert_eq!(panel.new_capability(Capability::Touch), None);
    assert_eq!(panel.remove_capability(Capability::Touch), None);
    assert_eq!(panel.keyboard(), None);
    assert_eq!(panel.pointer(), None);
}

#[test]
fn revoking_what_is_not_held_releases_nothing() {
    let mut panel = YarrBar::new(PANEL);
    assert_eq!(panel.remove_capability(Capability::Keyboard), None);
    assert_eq!(panel.remove_capability(Capability::Pointer), None);
    assert_eq!(panel.dispatch(Event::Seat(SeatEvent::CapabilityRevoked(Capability::Pointer))), Ok(None));
    assert_eq!(panel.dispatch(Event::Seat(SeatEvent::Removed)), Ok(None));
    assert_eq!(panel.dispatch(Event::Seat(SeatEvent::New)), Ok(None));
}

#[test]
fn first_refusal_is_fatal() {
    let panel = YarrBar::new(PANEL);
    assert_eq!(
        panel.device_refused(DeviceKind::Keyboard),
        Err(PanelError::CapabilityAcquisitionFailure(DeviceKind::Keyboard))
    );
    assert_eq!(
        panel.device_refused(DeviceKind::Pointer),
        Err(PanelError::CapabilityAcquisitionFailure(DeviceKind::Pointer))
    );
}

#[test]
fn refusal_after_a_device_was_held_is_borne() {
    let mut panel = YarrBar::new(PANEL);
    panel.new_capability(Capability::Keyboard);
    panel.device_granted(DeviceKind::Keyboard, DeviceHandle { id: 2 });
    panel.remove_capability(Capability::Keyboard);
    assert_eq!(panel.new_capability(Capability::Keyboard), Some(DeviceKind::Keyboard));
    assert_eq!(panel.device_refused(DeviceKind::Keyboard), Ok(()));
    assert_eq!(panel.keyboard(), None);
    // The other class has never been held: its first refusal still ends the session.
    let refused = Event::Seat(SeatEvent::DeviceRefused { kind: DeviceKind::Pointer });
    assert_eq!(panel.dispatch(refused), Err(PanelError::CapabilityAcquisitionFailure(DeviceKind::Pointer)));
    let refused = Event::Seat(SeatEvent::DeviceRefused { kind: DeviceKind::Keyboard });
    assert_eq!(panel.dispatch(refused), Ok(None));
    // Announced again, the panel asks again.
    assert_eq!(panel.new_capability(Capability::Keyboard), Some(DeviceKind::Keyboard));
}

#[test]
fn slot_announce_grant_and_revoke() {
    let mut slot = DeviceSlot::new();
    assert_eq!(slot, DeviceSlot { announced: false, handle: None, established: false });
    assert_eq!(slot.grant(DeviceHandle { id: 1 }), Some(DeviceHandle { id: 1 }));
    assert_eq!(slot.revoke(), None);
    assert!(slot.announce());
    assert_eq!(slot, DeviceSlot { announced: true, handle: None, established: false });
    assert_eq!(slot.grant(DeviceHandle { id: 1 }), None);
    assert_eq!(slot, DeviceSlot { announced: true, handle: Some(DeviceHandle { id: 1 }), established: true });
    assert!(!slot.announce());
    assert_eq!(slot.grant(DeviceHandle { id: 2 }), Some(DeviceHandle { id: 2 }));
    assert_eq!(slot.revoke(), Some(DeviceHandle { id: 1 }));
    assert_eq!(slot, DeviceSlot { announced: false, handle: None, established: true });
}

#[test]
fn capability_classes() {
    assert_eq!(Capability::Keyboard.device_kind(), Some(DeviceKind::Keyboard));
    assert_eq!(Capability::Pointer.device_kind(), Some(DeviceKind::Pointer));
    assert_eq!(Capability::Touch.device_kind(), None);
}

use yarrbar::event::{Action, Event, Flow, SeatEvent, SurfaceEvent};
use yarrbar::input::{PointerEvent, PointerEventKind, SurfaceId};
use yarrbar::seat::{Capability, DeviceHandle, DeviceKind};
use yarrbar::YarrBar;

const PANEL: SurfaceId = SurfaceId { id: 11 };
const OTHER: SurfaceId = SurfaceId { id: 12 };

fn press_on(surface: SurfaceId) -> PointerEvent {
    PointerEvent { surface, kind: PointerEventKind::Press { button: 0x110 } }
}

#[test]
fn keyboard_lifecycle_announce_revoke_reannounce() {
    let mut panel = YarrBar::new(PANEL);
    assert_eq!(panel.keyboard(), None);

    assert_eq!(panel.new_capability(Capability::Keyboard), Some(DeviceKind::Keyboard));
    assert_eq!(panel.device_granted(DeviceKind::Keyboard, DeviceHandle { id: 3 }), None);
    assert_eq!(panel.keyboard(), Some(DeviceHandle { id: 3 }));

    assert_eq!(panel.remove_capability(Capability::Keyboard), Some(DeviceHandle { id: 3 }));
    assert_eq!(panel.keyboard(), None);

    assert_eq!(panel.new_capability(Capability::Keyboard), Some(DeviceKind::Keyboard));
    assert_eq!(panel.device_granted(DeviceKind::Keyboard, DeviceHandle { id: 4 }), None);
    assert_eq!(panel.keyboard(), Some(DeviceHandle { id: 4 }));
    assert_eq!(panel.pointer(), None);
}

#[test]
fn keyboard_lifecycle_through_dispatch() {
    let mut panel = YarrBar::new(PANEL);
    let announced = Event::Seat(SeatEvent::CapabilityAnnounced(Capability::Keyboard));
    let revoked = Event::Seat(SeatEvent::CapabilityRevoked(Capability::Keyboard));

    assert_eq!(panel.dispatch(announced), Ok(Some(Action::Acquire(DeviceKind::Keyboard))));
    let granted =
        Event::Seat(SeatEvent::DeviceGranted { kind: DeviceKind::Keyboard, handle: DeviceHandle { id: 21 } });
    assert_eq!(panel.dispatch(granted), Ok(None));
    assert_eq!(panel.keyboard(), Some(DeviceHandle { id: 21 }));

    assert_eq!(panel.dispatch(revoked), Ok(Some(Action::Release(DeviceHandle { id: 21 }))));
    assert_eq!(panel.keyboard(), None);

    assert_eq!(panel.dispatch(announced), Ok(Some(Action::Acquire(DeviceKind::Keyboard))));
    let granted =
        Event::Seat(SeatEvent::DeviceGranted { kind: DeviceKind::Keyboard, handle: DeviceHandle { id: 22 } });
    assert_eq!(panel.dispatch(granted), Ok(None));
    assert_eq!(panel.keyboard(), Some(DeviceHandle { id: 22 }));
}

#[test]
fn configure_fallback_then_size_then_close() {
    let mut panel = YarrBar::new(PANEL);
    assert!(!panel.exit());

    panel.configure((0, 0));
    assert_eq!((panel.width(), panel.height()), (256, 256));

    panel.configure((800, 40));
    assert_eq!((panel.width(), panel.height()), (800, 40));

    panel.closed();
    assert!(panel.exit());
    assert_eq!(panel.loop_control(true), Ok(Flow::Exit));
}

#[test]
fn configure_fallback_then_size_then_close_through_dispatch() {
    let mut panel = YarrBar::new(PANEL);
    let first = panel.dispatch(Event::Surface(SurfaceEvent::Configure { width: 0, height: 0 }));
    assert_eq!(first, Ok(Some(Action::Render)));
    assert_eq!((panel.width(), panel.height()), (256, 256));

    let second = panel.dispatch(Event::Surface(SurfaceEvent::Configure { width: 800, height: 40 }));
    assert_eq!(second, Ok(None));
    assert_eq!((panel.width(), panel.height()), (800, 40));

    assert_eq!(panel.dispatch(Event::Surface(SurfaceEvent::Closed)), Ok(None));
    assert!(panel.exit());
}

#[test]
fn pointer_press_twice_then_foreign_press() {
    let mut panel = YarrBar::new(PANEL);
    assert_eq!(panel.shift(), None);

    panel.pointer_frame(&[press_on(PANEL)]);
    assert_eq!(panel.shift(), Some(0));

    panel.pointer_frame(&[press_on(PANEL)]);
    assert_eq!(panel.shift(), None);

    panel.pointer_frame(&[press_on(OTHER)]);
    assert_eq!(panel.shift(), None);
}

#[test]
fn foreign_press_leaves_a_set_shift_set() {
    let mut panel = YarrBar::new(PANEL);
    panel.pointer_event(press_on(PANEL));
    panel.pointer_event(press_on(OTHER));
    assert_eq!(panel.shift(), Some(0));
}

use yarrbar::event::Event;
use yarrbar::input::{
    xor, KeyboardEvent, KeyboardEventKind, Modifiers, PointerEvent, PointerEventKind, SurfaceId,
    CANCEL_KEYSYM, SHIFT_SENTINEL,
};
use yarrbar::YarrBar;

const PANEL: SurfaceId = SurfaceId { id: 40 };
const OTHER: SurfaceId = SurfaceId { id: 41 };

fn pointer(surface: SurfaceId, kind: PointerEventKind) -> PointerEvent {
    PointerEvent { surface, kind }
}

fn quiet() -> Modifiers {
    Modifiers { ctrl: false, alt: false, shift: false, caps_lock: false, logo: false, num_lock: false }
}

#[test]
fn cancel_key_is_escape() {
    assert_eq!(CANCEL_KEYSYM, 0xff1b);
    assert_eq!(SHIFT_SENTINEL, 0);
}

#[test]
fn surfaces_compare_by_id() {
    assert!(PANEL.same(SurfaceId { id: 40 }));
    assert!(!PANEL.same(OTHER));
}

#[test]
fn focus_follows_enter_and_leave_on_own_surface() {
    let mut panel = YarrBar::new(PANEL);
    panel.enter(PANEL);
    assert!(panel.keyboard_focus());
    panel.leave(PANEL);
    assert!(!panel.keyboard_focus());
}

#[test]
fn focus_ignores_other_surfaces() {
    let mut panel = YarrBar::new(PANEL);
    panel.enter(OTHER);
    assert!(!panel.keyboard_focus());
    panel.enter(PANEL);
    panel.leave(OTHER);
    assert!(panel.keyboard_focus());
}

#[test]
fn escape_ends_the_session_without_focus() {
    let mut panel = YarrBar::new(PANEL);
    assert!(!panel.keyboard_focus());
    panel.press_key(PANEL, 0xff1b);
    assert!(panel.exit());
}

#[test]
fn escape_ends_the_session_with_focus() {
    let mut panel = YarrBar::new(PANEL);
    panel.enter(PANEL);
    panel.press_key(PANEL, CANCEL_KEYSYM);
    assert!(panel.exit());
    assert!(panel.keyboard_focus());
}

#[test]
fn escape_twice_stays_set() {
    let mut panel = YarrBar::new(PANEL);
    panel.press_key(PANEL, CANCEL_KEYSYM);
    panel.press_key(PANEL, CANCEL_KEYSYM);
    assert!(panel.exit());
}

#[test]
fn escape_on_another_surface_is_discarded() {
    let mut panel = YarrBar::new(PANEL);
    panel.press_key(OTHER, CANCEL_KEYSYM);
    assert!(!panel.exit());
}

#[test]
fn other_keys_do_not_end_the_session() {
    let mut panel = YarrBar::new(PANEL);
    panel.press_key(PANEL, 0x61);
    panel.press_key(PANEL, 0xff1a);
    panel.press_key(PANEL, 0xff1c);
    panel.press_key(PANEL, 0);
    assert!(!panel.exit());
}

#[test]
fn release_and_modifiers_change_nothing() {
    let mut panel = YarrBar::new(PANEL);
    panel.release_key(PANEL, CANCEL_KEYSYM);
    panel.update_modifiers(PANEL, Modifiers { ctrl: true, ..quiet() });
    panel.keyboard_event(KeyboardEvent { surface: PANEL, kind: KeyboardEventKind::Release { keysym: 0xff1b } });
    panel.keyboard_event(KeyboardEvent { surface: PANEL, kind: KeyboardEventKind::Modifiers(quiet()) });
    assert!(!panel.exit());
    assert!(!panel.keyboard_focus());
    assert_eq!(panel.shift(), None);
}

#[test]
fn keyboard_events_through_dispatch() {
    let mut panel = YarrBar::new(PANEL);
    let enter = Event::Keyboard(KeyboardEvent { surface: PANEL, kind: KeyboardEventKind::Enter });
    let leave = Event::Keyboard(KeyboardEvent { surface: PANEL, kind: KeyboardEventKind::Leave });
    let escape =
        Event::Keyboard(KeyboardEvent { surface: PANEL, kind: KeyboardEventKind::Press { keysym: 0xff1b } });
    assert_eq!(panel.dispatch(enter), Ok(None));
    assert!(panel.keyboard_focus());
    assert_eq!(panel.dispatch(leave), Ok(None));
    assert!(!panel.keyboard_focus());
    assert_eq!(panel.dispatch(escape), Ok(None));
    assert!(panel.exit());
}

#[test]
fn only_presses_switch_shift() {
    let mut panel = YarrBar::new(PANEL);
    panel.pointer_frame(&[
        pointer(PANEL, PointerEventKind::Enter),
        pointer(PANEL, PointerEventKind::Motion),
        pointer(PANEL, PointerEventKind::Release { button: 0x110 }),
        pointer(PANEL, PointerEventKind::Axis { horizontal: 0, vertical: -1 }),
        pointer(PANEL, PointerEventKind::Leave),
    ]);
    assert_eq!(panel.shift(), None);
    panel.pointer_event(pointer(PANEL, PointerEventKind::Press { button: 0x111 }));
    assert_eq!(panel.shift(), Some(0));
    panel.pointer_frame(&[
        pointer(PANEL, PointerEventKind::Motion),
        pointer(PANEL, PointerEventKind::Release { button: 0x111 }),
    ]);
    assert_eq!(panel.shift(), Some(0));
}

#[test]
fn batch_switches_on_odd_counts_of_own_presses() {
    let press = pointer(PANEL, PointerEventKind::Press { button: 0x110 });
    let foreign = pointer(OTHER, PointerEventKind::Press { button: 0x110 });
    let motion = pointer(PANEL, PointerEventKind::Motion);

    let mut panel = YarrBar::new(PANEL);
    panel.pointer_frame(&[]);
    assert_eq!(panel.shift(), None);
    panel.pointer_frame(&[press, foreign, motion, press, press]);
    assert_eq!(panel.shift(), Some(0));
    panel.pointer_frame(&[press, foreign, press]);
    assert_eq!(panel.shift(), Some(0));
    panel.pointer_frame(&[foreign, foreign, press, foreign]);
    assert_eq!(panel.shift(), None);
}

#[test]
fn pointer_events_touch_nothing_but_shift() {
    let mut panel = YarrBar::new(PANEL);
    panel.configure((800, 40));
    panel.enter(PANEL);
    panel.pointer_frame(&[pointer(PANEL, PointerEventKind::Press { button: 1 })]);
    assert_eq!((panel.width(), panel.height()), (800, 40));
    assert!(panel.keyboard_focus());
    assert!(!panel.exit());
    assert!(!panel.first_configure());
}

#[test]
fn pointer_press_through_dispatch() {
    let mut panel = YarrBar::new(PANEL);
    let press = Event::Pointer(pointer(PANEL, PointerEventKind::Press { button: 0x110 }));
    assert_eq!(panel.dispatch(press), Ok(None));
    assert_eq!(panel.shift(), Some(0));
    assert_eq!(panel.dispatch(press), Ok(None));
    assert_eq!(panel.shift(), None);
}

#[test]
fn pointer_kinds() {
    assert!(pointer(PANEL, PointerEventKind::Press { button: 3 }).is_press());
    assert!(!pointer(PANEL, PointerEventKind::Release { button: 3 }).is_press());
    assert!(!pointer(PANEL, PointerEventKind::Motion).is_press());
}

#[test]
fn xor_keeps_the_one_that_is_alone() {
    assert_eq!(xor(None, None), None);
    assert_eq!(xor(Some(7), None), Some(7));
    assert_eq!(xor(None, Some(0)), Some(0));
    assert_eq!(xor(Some(7), Some(0)), None);
}

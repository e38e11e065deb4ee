use shy_notes::interaction::{
    ControlSignal, InteractionCore, InteractionState, PointerReading, CAPTURE_RELEASE_TICKS,
};

const DELAY_MS: u64 = 400;

fn reading(t_ms: u64) -> PointerReading {
    PointerReading {
        t_ms,
        in_capture: false,
        was_in_capture: false,
        near_widget: false,
        beyond_influence: false,
        nearly_still: false,
        aims_at_capture: false,
    }
}

fn in_capture(t_ms: u64) -> PointerReading {
    PointerReading { in_capture: true, near_widget: true, ..reading(t_ms) }
}

fn captured() -> InteractionCore {
    let mut c = InteractionCore::new(false);
    let d = c.on_mouse(false, in_capture(0), DELAY_MS);
    assert_eq!(c.state, InteractionState::Captured);
    assert_eq!(d.signals, vec![ControlSignal::RequestFocus]);
    c
}

#[test]
fn new_machine_state_follows_pin() {
    let free = InteractionCore::new(false);
    assert_eq!(free.state, InteractionState::Idle);
    assert!(free.evasion_enabled);
    assert!(!free.visuals.pre_capture);
    assert_eq!(free.pre_capture_since_ms, None);
    assert_eq!(free.outside_capture_ticks, 0);
    assert_eq!(InteractionCore::new(true).state, InteractionState::Pinned);
}

#[test]
fn entering_capture_surface_captures_and_focuses() {
    let c = captured();
    assert_eq!(c.outside_capture_ticks, 0);
}

#[test]
fn nearly_still_pointer_does_not_repel() {
    let mut c = InteractionCore::new(false);
    let d = c.on_mouse(false, PointerReading { nearly_still: true, ..reading(16) }, DELAY_MS);
    assert!(!d.repel);
    assert!(d.signals.is_empty());
    assert_eq!(c.state, InteractionState::Idle);
}

#[test]
fn aiming_holds_pre_capture_and_shows_hint_after_quarter_delay() {
    let mut c = InteractionCore::new(false);
    let aim = |t| PointerReading { aims_at_capture: true, ..reading(t) };
    let d = c.on_mouse(false, aim(1000), DELAY_MS);
    assert!(!d.repel);
    assert_eq!(c.state, InteractionState::PreCapture);
    assert_eq!(c.pre_capture_since_ms, Some(1000));
    assert!(d.signals.is_empty());
    let d = c.on_mouse(false, aim(1099), DELAY_MS);
    assert!(d.signals.is_empty());
    assert!(!c.visuals.pre_capture);
    let d = c.on_mouse(false, aim(1100), DELAY_MS);
    assert_eq!(d.signals, vec![ControlSignal::SetVisual { pre_capture: true }]);
    assert!(c.visuals.pre_capture);
    // Already shown: no second signal.
    let d = c.on_mouse(false, aim(1200), DELAY_MS);
    assert!(d.signals.is_empty());
    // A still pointer keeps the hint and stays evaluating.
    let d = c.on_mouse(false, PointerReading { nearly_still: true, ..reading(1216) }, DELAY_MS);
    assert!(d.signals.is_empty());
    assert_eq!(c.state, InteractionState::Evaluating);
    assert!(c.visuals.pre_capture);
}

#[test]
fn glancing_motion_repels_and_clears_hint() {
    let mut c = InteractionCore::new(false);
    c.on_mouse(false, PointerReading { aims_at_capture: true, ..reading(0) }, 0);
    assert!(c.visuals.pre_capture);
    let d = c.on_mouse(false, reading(16), 0);
    assert!(d.repel);
    assert_eq!(c.state, InteractionState::Repelling);
    assert_eq!(d.signals, vec![ControlSignal::SetVisual { pre_capture: false }]);
    assert_eq!(c.pre_capture_since_ms, None);
    assert!(!c.follows_window());
}

#[test]
fn pointer_beyond_influence_makes_idle() {
    let mut c = InteractionCore::new(false);
    c.on_mouse(false, PointerReading { aims_at_capture: true, ..reading(0) }, 0);
    let d = c.on_mouse(false, PointerReading { beyond_influence: true, ..reading(16) }, 0);
    assert!(!d.repel);
    assert_eq!(c.state, InteractionState::Idle);
    assert_eq!(d.signals, vec![ControlSignal::SetVisual { pre_capture: false }]);
    assert_eq!(c.pre_capture_since_ms, None);
}

#[test]
fn pinned_never_repels_and_focuses_on_entry_only() {
    let mut c = InteractionCore::new(false);
    c.set_pinned(true);
    assert_eq!(c.state, InteractionState::Pinned);
    let d = c.on_mouse(true, reading(0), DELAY_MS);
    assert!(!d.repel);
    assert!(d.signals.is_empty());
    let d = c.on_mouse(true, PointerReading { in_capture: true, ..reading(16) }, DELAY_MS);
    assert_eq!(d.signals, vec![ControlSignal::RequestFocus]);
    let d = c.on_mouse(
        true,
        PointerReading { in_capture: true, was_in_capture: true, ..reading(32) },
        DELAY_MS,
    );
    assert!(d.signals.is_empty());
    assert_eq!(c.state, InteractionState::Pinned);
    c.set_pinned(false);
    assert_eq!(c.state, InteractionState::Idle);
}

#[test]
fn drag_ignores_every_sample() {
    let mut c = InteractionCore::new(false);
    c.begin_drag();
    let before = c;
    for t in 0..10 {
        let d = c.on_mouse(false, in_capture(t), DELAY_MS);
        assert!(!d.repel);
        assert!(d.signals.is_empty());
    }
    assert_eq!(c, before);
    c.end_drag(true);
    assert_eq!(c.state, InteractionState::Pinned);
    c.begin_drag();
    c.end_drag(false);
    assert_eq!(c.state, InteractionState::Idle);
}

#[test]
fn capture_released_after_sustained_exit() {
    let mut c = captured();
    for i in 1..CAPTURE_RELEASE_TICKS {
        let d = c.on_mouse(false, reading(u64::from(i) * 16), DELAY_MS);
        assert!(!d.repel);
        assert_eq!(c.state, InteractionState::Captured);
        assert_eq!(c.outside_capture_ticks, i);
    }
    c.on_mouse(false, reading(1000), DELAY_MS);
    assert_eq!(c.state, InteractionState::Idle);
    assert_eq!(c.outside_capture_ticks, 0);
}

#[test]
fn capture_survives_a_transient_glitch() {
    let mut c = captured();
    c.on_mouse(false, reading(16), DELAY_MS);
    assert_eq!(c.outside_capture_ticks, 1);
    c.on_mouse(false, PointerReading { near_widget: true, ..reading(32) }, DELAY_MS);
    assert_eq!(c.outside_capture_ticks, 0);
    assert_eq!(c.state, InteractionState::Captured);
}

#[test]
fn disabled_evasion_ignores_pointer() {
    let mut c = InteractionCore::new(false);
    c.evasion_enabled = false;
    let d = c.on_mouse(false, reading(16), DELAY_MS);
    assert!(!d.repel);
    assert!(d.signals.is_empty());
    assert_eq!(c.state, InteractionState::Idle);
}

#[test]
fn window_followed_unless_repelling() {
    let c = InteractionCore::new(false);
    assert!(c.follows_window());
}

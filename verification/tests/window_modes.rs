use cycle_planner::window_mode::{
    toggle_maximize, CompactMode, WindowEffect, WindowGeometry, WindowMode, WindowModeController,
    CALENDAR_WINDOW_HEIGHT, CALENDAR_WINDOW_WIDTH, DEFAULT_WINDOW_HEIGHT, DEFAULT_WINDOW_WIDTH,
    POST_IT_WINDOW_HEIGHT, POST_IT_WINDOW_WIDTH,
};

#[derive(Debug, Clone, Copy, PartialEq)]
struct FakeWindow {
    geometry: WindowGeometry,
    always_on_top: bool,
    opacity: u64,
}

fn fake_window(width: u32, height: u32, maximized: bool) -> FakeWindow {
    FakeWindow {
        geometry: WindowGeometry { width, height, maximized },
        always_on_top: false,
        opacity: 0,
    }
}

fn perform_on(window: &mut FakeWindow, effects: &[WindowEffect]) {
    for effect in effects {
        match *effect {
            WindowEffect::Unmaximize => window.geometry.maximized = false,
            WindowEffect::Maximize => window.geometry.maximized = true,
            WindowEffect::Resize { width, height } => {
                window.geometry.width = width;
                window.geometry.height = height;
            }
            WindowEffect::SetAlwaysOnTop { enabled } => window.always_on_top = enabled,
            WindowEffect::ApplyOpacity { bits } => window.opacity = bits,
        }
    }
}

fn toggle_on(
    controller: &mut WindowModeController,
    mode: CompactMode,
    window: &mut FakeWindow,
) -> bool {
    let effects = controller.begin_toggle(mode, window.geometry);
    perform_on(window, &effects);
    controller.complete_toggle(mode)
}

#[test]
fn window_sizes_are_the_fixed_ones() {
    assert_eq!((DEFAULT_WINDOW_WIDTH, DEFAULT_WINDOW_HEIGHT), (1320, 860));
    assert_eq!((POST_IT_WINDOW_WIDTH, POST_IT_WINDOW_HEIGHT), (390, 560));
    assert_eq!((CALENDAR_WINDOW_WIDTH, CALENDAR_WINDOW_HEIGHT), (1080, 760));
}

#[test]
fn controller_starts_normal_and_opaque() {
    let controller = WindowModeController::new();
    assert_eq!(controller.mode(), WindowMode::Normal);
    assert!(!controller.is_post_it_mode());
    assert!(!controller.is_calendar_mode());
    assert_eq!(controller.saved_geometry(), None);
    assert_eq!(f64::from_bits(controller.opacity()), 1.0);
    let by_default = WindowModeController::default();
    assert_eq!(by_default.mode(), WindowMode::Normal);
    assert_eq!(by_default.opacity(), controller.opacity());
}

#[test]
fn entering_post_it_resizes_and_stays_on_top() {
    let mut controller = WindowModeController::new();
    let observed = WindowGeometry { width: 1400, height: 900, maximized: false };
    let effects = controller.begin_toggle(CompactMode::PostIt, observed);
    assert_eq!(
        effects,
        vec![
            WindowEffect::Resize { width: 390, height: 560 },
            WindowEffect::SetAlwaysOnTop { enabled: true },
            WindowEffect::ApplyOpacity { bits: 1.0f64.to_bits() },
        ]
    );
    assert_eq!(controller.saved_geometry(), Some(observed));
    assert_eq!(controller.mode(), WindowMode::Normal);
    assert!(controller.complete_toggle(CompactMode::PostIt));
    assert_eq!(controller.mode(), WindowMode::PostIt);
    assert!(controller.is_post_it_mode());
    assert!(controller.is_active(CompactMode::PostIt));
    assert!(!controller.is_active(CompactMode::Calendar));
}

#[test]
fn entering_from_a_maximized_window_unmaximizes_first() {
    let mut controller = WindowModeController::new();
    let observed = WindowGeometry { width: 1920, height: 1080, maximized: true };
    let effects = controller.begin_toggle(CompactMode::Calendar, observed);
    assert_eq!(
        effects,
        vec![
            WindowEffect::Unmaximize,
            WindowEffect::Resize { width: 1080, height: 760 },
            WindowEffect::ApplyOpacity { bits: 1.0f64.to_bits() },
        ]
    );
    assert!(controller.complete_toggle(CompactMode::Calendar));
    assert_eq!(controller.mode(), WindowMode::Calendar);
    let effects = controller.begin_toggle(CompactMode::Calendar, observed);
    assert_eq!(
        effects,
        vec![
            WindowEffect::Resize { width: 1920, height: 1080 },
            WindowEffect::Maximize,
            WindowEffect::ApplyOpacity { bits: 1.0f64.to_bits() },
        ]
    );
    assert!(!controller.complete_toggle(CompactMode::Calendar));
    assert_eq!(controller.mode(), WindowMode::Normal);
}

#[test]
fn post_it_round_trip_restores_geometry() {
    let mut controller = WindowModeController::new();
    let mut window = fake_window(1234, 777, false);
    assert!(toggle_on(&mut controller, CompactMode::PostIt, &mut window));
    assert_eq!(window.geometry, WindowGeometry { width: 390, height: 560, maximized: false });
    assert!(window.always_on_top);
    assert!(!toggle_on(&mut controller, CompactMode::PostIt, &mut window));
    assert_eq!(window.geometry, WindowGeometry { width: 1234, height: 777, maximized: false });
    assert_eq!(controller.mode(), WindowMode::Normal);
    assert_eq!(controller.saved_geometry(), None);
}

#[test]
fn calendar_round_trip_restores_geometry() {
    let mut controller = WindowModeController::new();
    let mut window = fake_window(1000, 600, false);
    assert!(toggle_on(&mut controller, CompactMode::Calendar, &mut window));
    assert_eq!(window.geometry, WindowGeometry { width: 1080, height: 760, maximized: false });
    assert!(!window.always_on_top);
    assert!(controller.is_calendar_mode());
    assert!(!toggle_on(&mut controller, CompactMode::Calendar, &mut window));
    assert_eq!(window.geometry, WindowGeometry { width: 1000, height: 600, maximized: false });
}

#[test]
fn leaving_without_recorded_geometry_uses_the_default_size() {
    let mut controller = WindowModeController::new();
    let observed = WindowGeometry { width: 800, height: 600, maximized: false };
    controller.begin_toggle(CompactMode::PostIt, observed);
    controller.complete_toggle(CompactMode::PostIt);
    // A restore that fails after the record was consumed leaves the mode set.
    controller.begin_toggle(CompactMode::PostIt, observed);
    assert_eq!(controller.mode(), WindowMode::PostIt);
    assert_eq!(controller.saved_geometry(), None);
    let effects = controller.begin_toggle(CompactMode::PostIt, observed);
    assert_eq!(
        effects,
        vec![
            WindowEffect::Resize { width: 1320, height: 860 },
            WindowEffect::ApplyOpacity { bits: 1.0f64.to_bits() },
        ]
    );
    assert!(!controller.complete_toggle(CompactMode::PostIt));
}

#[test]
fn a_toggle_that_is_not_completed_leaves_the_mode() {
    let mut controller = WindowModeController::new();
    let observed = WindowGeometry { width: 800, height: 600, maximized: false };
    controller.begin_toggle(CompactMode::Calendar, observed);
    assert_eq!(controller.mode(), WindowMode::Normal);
    assert!(!controller.is_calendar_mode());
    assert_eq!(controller.saved_geometry(), Some(observed));
    // The stale record is kept by the next entry.
    let later = WindowGeometry { width: 640, height: 480, maximized: false };
    controller.begin_toggle(CompactMode::Calendar, later);
    assert_eq!(controller.saved_geometry(), Some(observed));
}

#[test]
fn switching_modes_keeps_the_normal_geometry() {
    let mut controller = WindowModeController::new();
    let mut window = fake_window(1500, 950, false);
    assert!(toggle_on(&mut controller, CompactMode::Calendar, &mut window));
    assert!(toggle_on(&mut controller, CompactMode::PostIt, &mut window));
    assert_eq!(controller.mode(), WindowMode::PostIt);
    assert!(!controller.is_calendar_mode());
    assert_eq!(
        controller.saved_geometry(),
        Some(WindowGeometry { width: 1500, height: 950, maximized: false })
    );
    assert_eq!(window.geometry, WindowGeometry { width: 390, height: 560, maximized: false });
    assert!(!toggle_on(&mut controller, CompactMode::PostIt, &mut window));
    assert_eq!(window.geometry, WindowGeometry { width: 1500, height: 950, maximized: false });
    assert_eq!(controller.mode(), WindowMode::Normal);
}

#[test]
fn modes_are_never_both_active() {
    let mut controller = WindowModeController::new();
    let mut window = fake_window(900, 700, false);
    let toggles = [
        CompactMode::PostIt,
        CompactMode::Calendar,
        CompactMode::Calendar,
        CompactMode::PostIt,
        CompactMode::PostIt,
        CompactMode::Calendar,
        CompactMode::PostIt,
        CompactMode::Calendar,
    ];
    for mode in toggles {
        let was_active = controller.is_active(mode);
        let active = toggle_on(&mut controller, mode, &mut window);
        assert_eq!(active, !was_active);
        assert!(!(controller.is_post_it_mode() && controller.is_calendar_mode()));
    }
}

#[test]
fn set_opacity_clamps_and_stores() {
    let mut controller = WindowModeController::new();
    let effects = controller.begin_set_opacity(0.2f64.to_bits());
    assert_eq!(effects, vec![WindowEffect::ApplyOpacity { bits: 0.5f64.to_bits() }]);
    assert_eq!(f64::from_bits(controller.opacity()), 1.0);
    assert_eq!(f64::from_bits(controller.complete_set_opacity(0.2f64.to_bits())), 0.5);
    assert_eq!(f64::from_bits(controller.opacity()), 0.5);
    assert_eq!(f64::from_bits(controller.complete_set_opacity(0.5f64.to_bits())), 0.5);
    assert_eq!(f64::from_bits(controller.opacity()), 0.5);
    assert_eq!(f64::from_bits(controller.complete_set_opacity(1.7f64.to_bits())), 1.0);
    assert_eq!(f64::from_bits(controller.opacity()), 1.0);
    assert_eq!(f64::from_bits(controller.complete_set_opacity(0.8f64.to_bits())), 0.8);
    assert_eq!(f64::from_bits(controller.opacity()), 0.8);
}

#[test]
fn toggles_apply_the_stored_opacity_again() {
    let mut controller = WindowModeController::new();
    controller.complete_set_opacity(0.75f64.to_bits());
    let mut window = fake_window(900, 700, false);
    toggle_on(&mut controller, CompactMode::PostIt, &mut window);
    assert_eq!(f64::from_bits(window.opacity), 0.75);
    window.opacity = 0;
    toggle_on(&mut controller, CompactMode::PostIt, &mut window);
    assert_eq!(f64::from_bits(window.opacity), 0.75);
}

#[test]
fn always_on_top_flips_and_applies_opacity() {
    let mut controller = WindowModeController::new();
    controller.complete_set_opacity(0.6f64.to_bits());
    let (next, effects) = controller.toggle_always_on_top(false);
    assert!(next);
    assert_eq!(
        effects,
        vec![
            WindowEffect::SetAlwaysOnTop { enabled: true },
            WindowEffect::ApplyOpacity { bits: 0.6f64.to_bits() },
        ]
    );
    let (next, effects) = controller.toggle_always_on_top(true);
    assert!(!next);
    assert_eq!(effects[0], WindowEffect::SetAlwaysOnTop { enabled: false });
    assert_eq!(controller.mode(), WindowMode::Normal);
}

#[test]
fn toggle_maximize_flips_the_state() {
    assert_eq!(toggle_maximize(true), WindowEffect::Unmaximize);
    assert_eq!(toggle_maximize(false), WindowEffect::Maximize);
}

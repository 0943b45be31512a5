use meru_shell::mode::{AppState, ModeStack};
use meru_shell::window::{
    process_double_click, restore_window, rewind_session_ended, window_control_event, ButtonState, FullscreenState,
    LastClicked, MouseButton, Resolution, ScaleFactor, Size, WindowControlEvent,
};

const MENU: Size = Size { width: 1280, height: 720 };
const FRAME: Size = Size { width: 160, height: 144 };

fn left_press(last: &mut LastClicked, now_ms: i64) -> bool {
    let event = process_double_click(last, MouseButton::Left, ButtonState::Pressed, now_ms);
    match event {
        Some(WindowControlEvent::ToggleFullscreen) => true,
        None => false,
        Some(other) => panic!("unexpected event {other:?}"),
    }
}

#[test]
fn scale_factor_is_clamped_to_one() {
    assert_eq!(ScaleFactor::new(0).get(), 1);
    assert_eq!(ScaleFactor::new(1).get(), 1);
    assert_eq!(ScaleFactor::new(7).get(), 7);
}

#[test]
fn scale_down_stops_at_one() {
    let mut scale = ScaleFactor::new(3);
    scale.scale_down();
    assert_eq!(scale.get(), 2);
    scale.scale_down();
    assert_eq!(scale.get(), 1);
    scale.scale_down();
    assert_eq!(scale.get(), 1);
}

#[test]
fn scale_up_has_no_ceiling_in_reach() {
    let mut scale = ScaleFactor::new(1);
    for _ in 0..49 {
        scale.scale_up();
    }
    assert_eq!(scale.get(), 50);
}

#[test]
fn scale_up_stays_at_the_largest_number() {
    let mut scale = ScaleFactor::new(usize::MAX - 1);
    scale.scale_up();
    assert_eq!(scale.get(), usize::MAX);
    scale.scale_up();
    assert_eq!(scale.get(), usize::MAX);
}

#[test]
fn menu_gets_the_menu_size() {
    let got = restore_window(Some(FRAME), MENU, AppState::Menu, false, ScaleFactor::new(4));
    assert_eq!(got, Some(Resolution { width: 1280, height: 720 }));
    let got = restore_window(None, MENU, AppState::Menu, false, ScaleFactor::new(4));
    assert_eq!(got, Some(Resolution { width: 1280, height: 720 }));
}

#[test]
fn running_gets_the_frame_times_the_scale() {
    let got = restore_window(Some(FRAME), MENU, AppState::Running, false, ScaleFactor::new(3));
    assert_eq!(got, Some(Resolution { width: 480, height: 432 }));
    let got = restore_window(Some(FRAME), MENU, AppState::Rewinding, false, ScaleFactor::new(1));
    assert_eq!(got, Some(Resolution { width: 160, height: 144 }));
}

#[test]
fn fullscreen_applies_no_size() {
    for mode in [AppState::Menu, AppState::Running, AppState::Rewinding] {
        assert_eq!(restore_window(Some(FRAME), MENU, mode, true, ScaleFactor::new(2)), None);
    }
}

#[test]
fn no_frame_buffer_means_no_size_outside_the_menu() {
    assert_eq!(restore_window(None, MENU, AppState::Running, false, ScaleFactor::new(2)), None);
    assert_eq!(restore_window(None, MENU, AppState::Rewinding, false, ScaleFactor::new(2)), None);
}

#[test]
fn product_of_the_largest_numbers_is_exact() {
    let frame = Size { width: usize::MAX, height: 2 };
    let got = restore_window(Some(frame), MENU, AppState::Running, false, ScaleFactor::new(usize::MAX));
    let max = usize::MAX as u128;
    assert_eq!(got, Some(Resolution { width: max * max, height: 2 * max }));
}

#[test]
fn toggle_fullscreen_flips_the_flag_and_reconciles() {
    let mut fullscreen = FullscreenState::default();
    assert!(!fullscreen.0);
    let mut scale = ScaleFactor::new(2);
    let commands = window_control_event(
        WindowControlEvent::ToggleFullscreen,
        &mut fullscreen,
        &mut scale,
        AppState::Running,
        Some(FRAME),
        MENU,
    );
    assert!(fullscreen.0);
    assert_eq!(commands.fullscreen, Some(true));
    assert_eq!(commands.resolution, None);
    let commands = window_control_event(
        WindowControlEvent::ToggleFullscreen,
        &mut fullscreen,
        &mut scale,
        AppState::Running,
        Some(FRAME),
        MENU,
    );
    assert!(!fullscreen.0);
    assert_eq!(commands.fullscreen, Some(false));
    assert_eq!(commands.resolution, Some(Resolution { width: 320, height: 288 }));
    assert_eq!(scale.get(), 2);
}

#[test]
fn change_scale_sets_the_factor_and_reconciles() {
    let mut fullscreen = FullscreenState(false);
    let mut scale = ScaleFactor::new(2);
    let commands = window_control_event(
        WindowControlEvent::ChangeScale(5),
        &mut fullscreen,
        &mut scale,
        AppState::Running,
        Some(FRAME),
        MENU,
    );
    assert_eq!(scale.get(), 5);
    assert_eq!(commands.fullscreen, None);
    assert_eq!(commands.resolution, Some(Resolution { width: 800, height: 720 }));
    let commands = window_control_event(
        WindowControlEvent::ChangeScale(0),
        &mut fullscreen,
        &mut scale,
        AppState::Rewinding,
        Some(FRAME),
        MENU,
    );
    assert_eq!(scale.get(), 1);
    assert_eq!(commands.resolution, Some(Resolution { width: 160, height: 144 }));
    assert!(!fullscreen.0);
}

#[test]
fn restore_changes_nothing_but_the_window() {
    let mut fullscreen = FullscreenState(true);
    let mut scale = ScaleFactor::new(3);
    let commands = window_control_event(
        WindowControlEvent::Restore,
        &mut fullscreen,
        &mut scale,
        AppState::Running,
        Some(FRAME),
        MENU,
    );
    assert!(fullscreen.0);
    assert_eq!(scale.get(), 3);
    assert_eq!(commands.fullscreen, None);
    assert_eq!(commands.resolution, None);
    fullscreen.0 = false;
    let commands = window_control_event(
        WindowControlEvent::Restore,
        &mut fullscreen,
        &mut scale,
        AppState::Menu,
        None,
        MENU,
    );
    assert_eq!(commands.resolution, Some(Resolution { width: 1280, height: 720 }));
}

#[test]
fn two_clicks_200_ms_apart_toggle_once() {
    let mut last = LastClicked(Some(-10_000));
    assert!(!left_press(&mut last, 5_000));
    assert_eq!(last.0, Some(5_000));
    assert!(left_press(&mut last, 5_200));
    assert_eq!(last.0, Some(4_200));
}

#[test]
fn two_clicks_300_ms_apart_do_not_toggle() {
    let mut last = LastClicked(Some(-10_000));
    assert!(!left_press(&mut last, 5_000));
    assert!(!left_press(&mut last, 5_300));
    assert_eq!(last.0, Some(5_300));
}

#[test]
fn double_click_window_is_below_250_ms() {
    let mut last = LastClicked(Some(1_000));
    assert!(left_press(&mut last, 1_249));
    let mut last = LastClicked(Some(1_000));
    assert!(!left_press(&mut last, 1_250));
}

#[test]
fn third_click_after_a_double_click_starts_afresh() {
    let mut last = LastClicked(Some(-10_000));
    assert!(!left_press(&mut last, 5_000));
    assert!(left_press(&mut last, 5_200));
    assert!(!left_press(&mut last, 5_300));
    assert_eq!(last.0, Some(5_300));
    // the third click can be the first of a new pair
    assert!(left_press(&mut last, 5_400));
}

#[test]
fn first_click_after_start_up_is_a_single_click() {
    for now_ms in [0, 100, 249, 250, 5_000, i64::MIN, i64::MAX] {
        let mut last = LastClicked::new();
        assert_eq!(last.0, None);
        assert!(!left_press(&mut last, now_ms), "at {now_ms}");
        assert_eq!(last.0, Some(now_ms));
    }
    let mut last = LastClicked::new();
    assert!(!left_press(&mut last, 100));
    assert!(left_press(&mut last, 300));
    assert_eq!(last.0, Some(-700));
}

#[test]
fn releases_and_other_buttons_leave_the_start_up_state() {
    let mut last = LastClicked::new();
    assert!(process_double_click(&mut last, MouseButton::Left, ButtonState::Released, 50).is_none());
    assert!(process_double_click(&mut last, MouseButton::Right, ButtonState::Pressed, 60).is_none());
    assert_eq!(last.0, None);
    assert!(!left_press(&mut last, 100));
}

#[test]
fn other_buttons_and_releases_are_ignored() {
    let mut last = LastClicked(Some(1_000));
    for (button, state) in [
        (MouseButton::Right, ButtonState::Pressed),
        (MouseButton::Middle, ButtonState::Pressed),
        (MouseButton::Other(4), ButtonState::Pressed),
        (MouseButton::Left, ButtonState::Released),
    ] {
        assert!(process_double_click(&mut last, button, state, 1_100).is_none());
        assert_eq!(last.0, Some(1_000));
    }
}

#[test]
fn backdating_stops_at_the_start_of_the_clock() {
    let mut last = LastClicked(Some(i64::MIN));
    assert!(left_press(&mut last, i64::MIN + 10));
    assert_eq!(last.0, Some(i64::MIN));
    let mut last = LastClicked(Some(i64::MIN));
    assert!(!left_press(&mut last, i64::MAX));
    assert_eq!(last.0, Some(i64::MAX));
}

#[test]
fn end_of_rewinding_resumes_running_and_reconciles() {
    let mut stack = ModeStack { active: AppState::Rewinding, suspended: vec![AppState::Running] };
    let event = rewind_session_ended(&mut stack);
    assert!(matches!(event, Some(WindowControlEvent::Restore)));
    assert_eq!(stack.active, AppState::Running);
    assert!(stack.suspended.is_empty());
    assert!(rewind_session_ended(&mut stack).is_none());
    assert_eq!(stack.active, AppState::Running);
    let mut menu = ModeStack::new();
    assert!(rewind_session_ended(&mut menu).is_none());
    assert_eq!(menu.active, AppState::Menu);
}

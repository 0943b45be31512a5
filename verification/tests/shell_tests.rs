use meru_shell::binding::InputSnapshot;
use meru_shell::hotkey::{EmulatorRequest, HotKey, HotKeys};
use meru_shell::keys::KeyCode;
use meru_shell::mode::{AppState, ModeChange};
use meru_shell::shell::Shell;
use meru_shell::window::{
    ButtonState, MouseButton, Resolution, ScaleFactor, Size, WindowControlEvent,
};

const MENU: Size = Size { width: 1280, height: 720 };
const FRAME: Size = Size { width: 256, height: 240 };

fn keys(held: &[KeyCode]) -> InputSnapshot {
    let mut snapshot = InputSnapshot::new(500);
    for key in held {
        snapshot.press_key(*key);
    }
    snapshot
}

fn texts(shell: &Shell) -> Vec<(String, i64, u64)> {
    shell.messages.items.iter().map(|n| (n.text.clone(), n.created_ms, n.offset)).collect()
}

#[test]
fn shell_starts_in_the_menu_with_nothing_going_on() {
    let shell = Shell::new(500);
    assert_eq!(shell.modes.active, AppState::Menu);
    assert!(shell.modes.suspended.is_empty());
    assert_eq!(shell.ui.state_save_slot, 0);
    assert!(!shell.fullscreen.0);
    assert_eq!(shell.last_clicked.0, None);
    assert!(!shell.is_turbo.0);
    assert!(shell.messages.items.is_empty());
    assert!(shell.previous.keys.is_empty());
    assert_eq!(shell.previous.axis_threshold, 500);
}

#[test]
fn a_whole_session_through_the_shell() {
    let hotkeys = HotKeys::default();
    let mut shell = Shell::new(500);
    let mut scale = ScaleFactor::new(2);

    // Escape with a session loaded: the menu gives way to the session.
    let events = shell.read_input(&hotkeys, keys(&[KeyCode::Escape]));
    assert_eq!(events, vec![HotKey::Menu]);
    let step = shell.apply_hotkey(HotKey::Menu, &mut scale, Some(FRAME), MENU, 1_000);
    assert_eq!(step.emulator, None);
    assert_eq!(step.mode, ModeChange::Replace(AppState::Running));
    assert_eq!(step.window.fullscreen, None);
    assert_eq!(step.window.resolution, Some(Resolution { width: 512, height: 480 }));
    assert_eq!(shell.modes.active, AppState::Running);

    // Held on the next tick: nothing fires.
    assert!(shell.read_input(&hotkeys, keys(&[KeyCode::Escape])).is_empty());

    // Ctrl+Plus: the window grows at once.
    let events = shell.read_input(&hotkeys, keys(&[KeyCode::LControl, KeyCode::Plus]));
    assert_eq!(events, vec![HotKey::ScaleUp]);
    let step = shell.apply_hotkey(HotKey::ScaleUp, &mut scale, Some(FRAME), MENU, 1_100);
    assert_eq!(scale.get(), 3);
    assert_eq!(step.mode, ModeChange::Unchanged);
    assert_eq!(step.window.resolution, Some(Resolution { width: 768, height: 720 }));

    // Ctrl+L: the session is asked, and its failure is reported.
    let step = shell.apply_hotkey(HotKey::StateLoad, &mut scale, Some(FRAME), MENU, 1_200);
    assert_eq!(step.emulator, Some(EmulatorRequest::LoadState(0)));
    assert_eq!(step.window.resolution, None);
    assert!(shell.messages.items.is_empty());
    let log = shell.session_loaded(0, &Err("no such file".to_string()), 1_200);
    assert_eq!(log, Some("Failed to load state: no such file".to_string()));
    assert_eq!(texts(&shell), vec![("Failed to load state".to_string(), 1_200, 0)]);
    assert_eq!(shell.modes.active, AppState::Running);
    assert_eq!(shell.ui.state_save_slot, 0);

    // Ctrl+N, then Ctrl+S.
    shell.apply_hotkey(HotKey::NextSlot, &mut scale, Some(FRAME), MENU, 1_300);
    let step = shell.apply_hotkey(HotKey::StateSave, &mut scale, Some(FRAME), MENU, 1_400);
    assert_eq!(step.emulator, Some(EmulatorRequest::SaveState(1)));
    assert_eq!(shell.session_saved(1, &Ok(()), 1_400), None);
    assert_eq!(
        texts(&shell),
        vec![
            ("Failed to load state".to_string(), 1_200, 40),
            ("State slot changed: #1".to_string(), 1_300, 20),
            ("State saved: #1".to_string(), 1_400, 0),
        ]
    );

    // The oldest notification goes first.
    assert_eq!(shell.expire_messages(4_200), Vec::<usize>::new());
    assert_eq!(shell.expire_messages(4_201), vec![0]);
    assert_eq!(shell.expire_messages(4_401), vec![0, 1]);
    assert!(shell.messages.items.is_empty());

    // Rewind and back.
    let step = shell.apply_hotkey(HotKey::Rewind, &mut scale, Some(FRAME), MENU, 5_000);
    assert_eq!(step.emulator, Some(EmulatorRequest::PushAutoSave));
    assert_eq!(step.mode, ModeChange::Push(AppState::Rewinding));
    assert_eq!(step.window.resolution, Some(Resolution { width: 768, height: 720 }));
    assert_eq!(shell.modes.active, AppState::Rewinding);
    assert_eq!(shell.modes.suspended, vec![AppState::Running]);
    let end = shell.rewind_ended(scale, Some(FRAME), MENU);
    assert_eq!(end.mode, ModeChange::Pop);
    assert_eq!(end.window.resolution, Some(Resolution { width: 768, height: 720 }));
    assert_eq!(shell.modes.active, AppState::Running);
    assert!(shell.modes.suspended.is_empty());
    let end = shell.rewind_ended(scale, Some(FRAME), MENU);
    assert_eq!(end.mode, ModeChange::Unchanged);
    assert_eq!(end.window.resolution, None);
    assert_eq!(end.window.fullscreen, None);
}

#[test]
fn fullscreen_hotkey_tells_the_window_and_applies_no_size() {
    let mut shell = Shell::new(500);
    let mut scale = ScaleFactor::new(2);
    let step = shell.apply_hotkey(HotKey::FullScreen, &mut scale, None, MENU, 0);
    assert!(shell.fullscreen.0);
    assert_eq!(step.window.fullscreen, Some(true));
    assert_eq!(step.window.resolution, None);
    let step = shell.apply_hotkey(HotKey::ScaleUp, &mut scale, None, MENU, 0);
    assert_eq!(step.window.fullscreen, None);
    assert_eq!(step.window.resolution, None);
    let step = shell.apply_hotkey(HotKey::FullScreen, &mut scale, None, MENU, 0);
    assert!(!shell.fullscreen.0);
    assert_eq!(step.window.fullscreen, Some(false));
    assert_eq!(step.window.resolution, Some(Resolution { width: 1280, height: 720 }));
}

#[test]
fn turbo_follows_the_input_of_each_tick() {
    let hotkeys = HotKeys::default();
    let mut shell = Shell::new(500);
    assert!(shell.read_input(&hotkeys, keys(&[KeyCode::Tab])).is_empty());
    assert!(shell.is_turbo.0);
    assert!(shell.previous.key_down(KeyCode::Tab));
    assert!(shell.read_input(&hotkeys, keys(&[])).is_empty());
    assert!(!shell.is_turbo.0);
}

#[test]
fn double_click_toggles_fullscreen_through_the_shell() {
    let mut shell = Shell::new(500);
    let scale = ScaleFactor::new(2);
    let press = |shell: &mut Shell, now_ms: i64| {
        shell.pointer_button(MouseButton::Left, ButtonState::Pressed, scale, Some(FRAME), MENU, now_ms)
    };
    // The first press after start-up has nothing to pair with.
    let commands = press(&mut shell, 100);
    assert_eq!((commands.fullscreen, commands.resolution), (None, None));
    assert!(!shell.fullscreen.0);
    assert_eq!(shell.last_clicked.0, Some(100));
    let commands = press(&mut shell, 5_000);
    assert_eq!((commands.fullscreen, commands.resolution), (None, None));
    let commands = press(&mut shell, 5_200);
    assert_eq!((commands.fullscreen, commands.resolution), (Some(true), None));
    assert!(shell.fullscreen.0);
    let commands = press(&mut shell, 5_300);
    assert_eq!((commands.fullscreen, commands.resolution), (None, None));
    assert!(shell.fullscreen.0);
    let commands = press(&mut shell, 5_450);
    assert_eq!(
        (commands.fullscreen, commands.resolution),
        (Some(false), Some(Resolution { width: 1280, height: 720 }))
    );
    let commands =
        shell.pointer_button(MouseButton::Right, ButtonState::Pressed, scale, None, MENU, 5_460);
    assert_eq!((commands.fullscreen, commands.resolution), (None, None));
    assert_eq!(shell.last_clicked.0, Some(4_450));
}

#[test]
fn window_event_from_elsewhere_changes_the_scale() {
    let mut shell = Shell::new(500);
    let mut scale = ScaleFactor::new(2);
    shell.apply_hotkey(HotKey::Menu, &mut scale, Some(FRAME), MENU, 0);
    let commands =
        shell.window_event(WindowControlEvent::ChangeScale(4), &mut scale, Some(FRAME), MENU);
    assert_eq!(scale.get(), 4);
    assert_eq!(commands.fullscreen, None);
    assert_eq!(commands.resolution, Some(Resolution { width: 1024, height: 960 }));
    let commands = shell.window_event(WindowControlEvent::Restore, &mut scale, Some(FRAME), MENU);
    assert_eq!(commands.resolution, Some(Resolution { width: 1024, height: 960 }));
}

#[test]
fn without_a_session_the_session_hotkeys_do_nothing() {
    let mut shell = Shell::new(500);
    let mut scale = ScaleFactor::new(2);
    for hotkey in [
        HotKey::Reset,
        HotKey::StateSave,
        HotKey::StateLoad,
        HotKey::NextSlot,
        HotKey::PrevSlot,
        HotKey::Rewind,
        HotKey::Menu,
        HotKey::Turbo,
    ] {
        let step = shell.apply_hotkey(hotkey, &mut scale, None, MENU, 10);
        assert_eq!(step.emulator, None, "{hotkey:?}");
        assert_eq!(step.mode, ModeChange::Unchanged, "{hotkey:?}");
        assert_eq!((step.window.fullscreen, step.window.resolution), (None, None), "{hotkey:?}");
    }
    assert_eq!(shell.modes.active, AppState::Menu);
    assert_eq!(shell.ui.state_save_slot, 0);
    assert_eq!(scale.get(), 2);
    assert!(shell.messages.items.is_empty());
}

#[test]
fn each_tick_is_compared_with_the_one_before() {
    let hotkeys = HotKeys::default();
    let mut shell = Shell::new(500);
    let mut fired: Vec<Vec<HotKey>> = Vec::new();
    for held in [
        vec![KeyCode::Escape],
        vec![KeyCode::Escape],
        vec![KeyCode::Escape, KeyCode::Back],
        vec![],
        vec![KeyCode::Escape],
    ] {
        fired.push(shell.read_input(&hotkeys, keys(&held)));
    }
    assert_eq!(
        fired,
        vec![vec![HotKey::Menu], vec![], vec![HotKey::Rewind], vec![], vec![HotKey::Menu]]
    );
    assert!(shell.previous.key_down(KeyCode::Escape));
}

use meru_shell::binding::{BindingNode, InputSnapshot};
use meru_shell::hotkey::{
    check_hotkey, process_hotkey, state_loaded, state_saved, EmulatorRequest, HotKey, HotKeys,
    IsTurbo, UiState,
};
use meru_shell::keys::{Gamepad, GamepadButton, GamepadButtonType, KeyCode};
use meru_shell::mode::{AppState, ModeChange, ModeStack};
use meru_shell::text::{numbered, push_decimal};
use meru_shell::window::{ScaleFactor, WindowControlEvent};

fn keys(held: &[KeyCode]) -> InputSnapshot {
    let mut snapshot = InputSnapshot::new(500);
    for key in held {
        snapshot.press_key(*key);
    }
    snapshot
}

fn pad0(button_type: GamepadButtonType) -> GamepadButton {
    GamepadButton::new(Gamepad::new(0), button_type)
}

struct Shell {
    modes: ModeStack,
    ui: UiState,
    scale: ScaleFactor,
}

impl Shell {
    fn new(active: AppState, slot: usize, scale: usize) -> Shell {
        let suspended = if active == AppState::Rewinding { vec![AppState::Running] } else { vec![] };
        Shell {
            modes: ModeStack { active, suspended },
            ui: UiState { state_save_slot: slot },
            scale: ScaleFactor::new(scale),
        }
    }

    fn apply(&mut self, hotkey: HotKey, session: bool) -> (Option<EmulatorRequest>, Option<String>, Option<String>) {
        let effects = process_hotkey(hotkey, &mut self.modes, &mut self.ui, &mut self.scale, session);
        (
            effects.emulator,
            effects.window.map(|w| format!("{w:?}")),
            effects.message.map(|m| m.0),
        )
    }

    fn state(&self) -> (AppState, Vec<AppState>, usize, usize) {
        (self.modes.active, self.modes.suspended.clone(), self.ui.state_save_slot, self.scale.get())
    }
}

#[test]
fn labels_are_as_shown_to_the_user() {
    let want = [
        (HotKey::Reset, "Reset"),
        (HotKey::Turbo, "Turbo"),
        (HotKey::StateSave, "State Save"),
        (HotKey::StateLoad, "State Load"),
        (HotKey::NextSlot, "State Slot Next"),
        (HotKey::PrevSlot, "State Slot Prev"),
        (HotKey::Rewind, "Start Rewindng"),
        (HotKey::Menu, "Enter/Leave Menu"),
        (HotKey::FullScreen, "Fullsceen"),
        (HotKey::ScaleUp, "Window Scale +"),
        (HotKey::ScaleDown, "Window Scale -"),
    ];
    for (hotkey, label) in want {
        assert_eq!(hotkey.to_string(), label);
    }
}

#[test]
fn all_lists_every_action_once_in_order() {
    assert_eq!(
        HotKey::all(),
        vec![
            HotKey::Reset,
            HotKey::Turbo,
            HotKey::StateSave,
            HotKey::StateLoad,
            HotKey::NextSlot,
            HotKey::PrevSlot,
            HotKey::Rewind,
            HotKey::Menu,
            HotKey::FullScreen,
            HotKey::ScaleUp,
            HotKey::ScaleDown,
        ]
    );
}

#[test]
fn decimal_numerals() {
    assert_eq!(numbered("#", 0), "#0");
    assert_eq!(numbered("#", 7), "#7");
    assert_eq!(numbered("#", 10), "#10");
    assert_eq!(numbered("", 1234567890), "1234567890");
    assert_eq!(numbered("n=", usize::MAX), format!("n={}", usize::MAX));
    let mut out = String::from("a");
    push_decimal(&mut out, 909);
    push_decimal(&mut out, 0);
    assert_eq!(out, "a9090");
}

#[test]
fn default_bindings_list_every_action() {
    let hotkeys = HotKeys::default();
    let listed: Vec<HotKey> = hotkeys.0.iter().map(|(hotkey, _)| *hotkey).collect();
    assert_eq!(listed, HotKey::all());
}

#[test]
fn default_bindings_are_the_documented_chords() {
    let hotkeys = HotKeys::default();
    let ctrl = KeyCode::LControl;
    let cases: Vec<(HotKey, Vec<KeyCode>, bool)> = vec![
        (HotKey::Reset, vec![ctrl, KeyCode::R], true),
        (HotKey::Reset, vec![KeyCode::R], false),
        (HotKey::Reset, vec![ctrl], false),
        (HotKey::Turbo, vec![KeyCode::Tab], true),
        (HotKey::StateSave, vec![ctrl, KeyCode::S], true),
        (HotKey::StateSave, vec![KeyCode::RControl, KeyCode::S], false),
        (HotKey::StateLoad, vec![ctrl, KeyCode::L], true),
        (HotKey::NextSlot, vec![ctrl, KeyCode::N], true),
        (HotKey::PrevSlot, vec![ctrl, KeyCode::P], true),
        (HotKey::Rewind, vec![KeyCode::Back], true),
        (HotKey::Menu, vec![KeyCode::Escape], true),
        (HotKey::Menu, vec![], false),
        (HotKey::FullScreen, vec![KeyCode::RAlt, KeyCode::Return], true),
        (HotKey::FullScreen, vec![KeyCode::LAlt, KeyCode::Return], false),
        (HotKey::ScaleUp, vec![ctrl, KeyCode::Plus], true),
        (HotKey::ScaleUp, vec![ctrl, KeyCode::Equals], true),
        (HotKey::ScaleUp, vec![KeyCode::Plus, KeyCode::Equals], false),
        (HotKey::ScaleDown, vec![ctrl, KeyCode::Minus], true),
        (HotKey::ScaleDown, vec![ctrl, KeyCode::Plus], false),
    ];
    for (hotkey, held, want) in cases {
        assert_eq!(hotkeys.pressed(hotkey, &keys(&held)), want, "{hotkey:?} with {held:?}");
        assert_eq!(hotkey.default_binding().held(&keys(&held)), want, "{hotkey:?} with {held:?}");
    }
}

#[test]
fn default_pad_bindings() {
    let hotkeys = HotKeys::default();
    let mut left = InputSnapshot::new(500);
    left.press_button(pad0(GamepadButtonType::LeftTrigger2));
    assert!(hotkeys.pressed(HotKey::Turbo, &left));
    assert!(!hotkeys.pressed(HotKey::Rewind, &left));
    let mut both = InputSnapshot::new(500);
    both.press_button(pad0(GamepadButtonType::RightTrigger2));
    assert!(!hotkeys.pressed(HotKey::Rewind, &both));
    both.press_button(pad0(GamepadButtonType::LeftTrigger2));
    assert!(hotkeys.pressed(HotKey::Rewind, &both));
    let mut other_pad = InputSnapshot::new(500);
    other_pad.press_button(GamepadButton::new(Gamepad::new(1), GamepadButtonType::LeftTrigger2));
    assert!(!hotkeys.pressed(HotKey::Turbo, &other_pad));
}

#[test]
fn missing_action_falls_back_to_its_default() {
    let hotkeys = HotKeys(vec![(HotKey::Menu, BindingNode::keycode(KeyCode::F1))]);
    assert!(hotkeys.key_assign(HotKey::Reset).is_none());
    assert!(hotkeys.pressed(HotKey::Reset, &keys(&[KeyCode::LControl, KeyCode::R])));
    assert!(hotkeys.key_assign(HotKey::Menu).is_some());
    assert!(hotkeys.pressed(HotKey::Menu, &keys(&[KeyCode::F1])));
}

#[test]
fn override_replaces_the_default_and_does_not_merge() {
    let mut hotkeys = HotKeys::default();
    hotkeys.set(HotKey::Menu, BindingNode::keycode(KeyCode::F1));
    assert!(hotkeys.pressed(HotKey::Menu, &keys(&[KeyCode::F1])));
    assert!(!hotkeys.pressed(HotKey::Menu, &keys(&[KeyCode::Escape])));
    assert!(hotkeys.pressed(HotKey::Reset, &keys(&[KeyCode::LControl, KeyCode::R])));
    assert_eq!(hotkeys.0.len(), 11);
    let mut sparse = HotKeys(vec![]);
    sparse.set(HotKey::Turbo, BindingNode::keycode(KeyCode::T));
    assert_eq!(sparse.0.len(), 1);
    assert!(sparse.pressed(HotKey::Turbo, &keys(&[KeyCode::T])));
    assert!(!sparse.pressed(HotKey::Turbo, &keys(&[KeyCode::Tab])));
    sparse.set(HotKey::Turbo, BindingNode::keycode(KeyCode::U));
    assert_eq!(sparse.0.len(), 1);
    assert!(sparse.pressed(HotKey::Turbo, &keys(&[KeyCode::U])));
}

#[test]
fn first_entry_for_an_action_counts() {
    let hotkeys = HotKeys(vec![
        (HotKey::Menu, BindingNode::keycode(KeyCode::F1)),
        (HotKey::Menu, BindingNode::keycode(KeyCode::F2)),
    ]);
    assert!(hotkeys.pressed(HotKey::Menu, &keys(&[KeyCode::F1])));
    assert!(!hotkeys.pressed(HotKey::Menu, &keys(&[KeyCode::F2])));
    let copy = hotkeys.clone();
    assert!(copy.pressed(HotKey::Menu, &keys(&[KeyCode::F1])));
    assert!(!copy.pressed(HotKey::Menu, &keys(&[KeyCode::F2])));
}

#[test]
fn check_hotkey_emits_each_fired_action_once() {
    let hotkeys = HotKeys::default();
    let mut turbo = IsTurbo(false);
    let previous = keys(&[KeyCode::LControl]);
    let current = keys(&[KeyCode::LControl, KeyCode::S, KeyCode::R, KeyCode::Escape]);
    let events = check_hotkey(&hotkeys, &previous, &current, &mut turbo);
    assert_eq!(events, vec![HotKey::Reset, HotKey::StateSave, HotKey::Menu]);
    assert!(!turbo.0);
    let events = check_hotkey(&hotkeys, &current, &current, &mut turbo);
    assert!(events.is_empty());
}

#[test]
fn turbo_is_a_level_and_never_an_event() {
    let hotkeys = HotKeys::default();
    let mut turbo = IsTurbo(false);
    let up = keys(&[]);
    let down = keys(&[KeyCode::Tab]);
    assert!(check_hotkey(&hotkeys, &up, &down, &mut turbo).is_empty());
    assert!(turbo.0);
    assert!(check_hotkey(&hotkeys, &down, &down, &mut turbo).is_empty());
    assert!(turbo.0);
    assert!(check_hotkey(&hotkeys, &down, &up, &mut turbo).is_empty());
    assert!(!turbo.0);
}

#[test]
fn reset_asks_the_session_and_tells_the_user() {
    let mut shell = Shell::new(AppState::Running, 2, 3);
    let got = shell.apply(HotKey::Reset, true);
    assert_eq!(got, (Some(EmulatorRequest::Reset), None, Some("Reset machine".to_string())));
    assert_eq!(shell.state(), (AppState::Running, vec![], 2, 3));
    let got = shell.apply(HotKey::Reset, false);
    assert_eq!(got, (None, None, None));
}

#[test]
fn state_save_and_load_ask_for_the_current_slot() {
    let mut shell = Shell::new(AppState::Running, 4, 1);
    assert_eq!(shell.apply(HotKey::StateSave, true), (Some(EmulatorRequest::SaveState(4)), None, None));
    assert_eq!(shell.apply(HotKey::StateLoad, true), (Some(EmulatorRequest::LoadState(4)), None, None));
    assert_eq!(shell.apply(HotKey::StateSave, false), (None, None, None));
    assert_eq!(shell.apply(HotKey::StateLoad, false), (None, None, None));
    assert_eq!(shell.state(), (AppState::Running, vec![], 4, 1));
}

#[test]
fn slot_moves_up_and_down_and_stops_at_zero() {
    let mut shell = Shell::new(AppState::Menu, 0, 1);
    let got = shell.apply(HotKey::PrevSlot, true);
    assert_eq!(got, (None, None, Some("State slot changed: #0".to_string())));
    assert_eq!(shell.ui.state_save_slot, 0);
    let got = shell.apply(HotKey::NextSlot, true);
    assert_eq!(got, (None, None, Some("State slot changed: #1".to_string())));
    assert_eq!(shell.ui.state_save_slot, 1);
    let got = shell.apply(HotKey::PrevSlot, true);
    assert_eq!(got, (None, None, Some("State slot changed: #0".to_string())));
    assert_eq!(shell.ui.state_save_slot, 0);
    for _ in 0..12 {
        shell.apply(HotKey::NextSlot, true);
    }
    assert_eq!(shell.ui.state_save_slot, 12);
    assert_eq!(
        shell.apply(HotKey::PrevSlot, true).2,
        Some("State slot changed: #11".to_string())
    );
    assert_eq!(shell.state(), (AppState::Menu, vec![], 11, 1));
}

#[test]
fn slot_stays_at_the_largest_number() {
    let mut shell = Shell::new(AppState::Running, usize::MAX, 1);
    let got = shell.apply(HotKey::NextSlot, true);
    assert_eq!(got.2, Some(format!("State slot changed: #{}", usize::MAX)));
    assert_eq!(shell.ui.state_save_slot, usize::MAX);
}

#[test]
fn slot_does_not_move_without_a_session() {
    let mut shell = Shell::new(AppState::Menu, 3, 1);
    assert_eq!(shell.apply(HotKey::NextSlot, false), (None, None, None));
    assert_eq!(shell.apply(HotKey::PrevSlot, false), (None, None, None));
    assert_eq!(shell.state(), (AppState::Menu, vec![], 3, 1));
}

#[test]
fn rewind_from_running_pushes_rewinding_and_saves_once() {
    let restore = format!("{:?}", WindowControlEvent::Restore);
    let mut shell = Shell::new(AppState::Running, 1, 2);
    let got = shell.apply(HotKey::Rewind, true);
    assert_eq!(got, (Some(EmulatorRequest::PushAutoSave), Some(restore), None));
    assert_eq!(shell.state(), (AppState::Rewinding, vec![AppState::Running], 1, 2));
    let got = shell.apply(HotKey::Rewind, true);
    assert_eq!(got, (None, None, None));
    assert_eq!(shell.state(), (AppState::Rewinding, vec![AppState::Running], 1, 2));
}

#[test]
fn rewind_from_the_menu_has_no_effect() {
    let mut shell = Shell::new(AppState::Menu, 1, 2);
    assert_eq!(shell.apply(HotKey::Rewind, true), (None, None, None));
    assert_eq!(shell.apply(HotKey::Rewind, false), (None, None, None));
    assert_eq!(shell.state(), (AppState::Menu, vec![], 1, 2));
}

#[test]
fn menu_hotkey_toggles_the_mode_and_reconciles_the_window() {
    let restore = format!("{:?}", WindowControlEvent::Restore);
    let mut shell = Shell::new(AppState::Menu, 0, 1);
    assert_eq!(shell.apply(HotKey::Menu, false), (None, None, None));
    assert_eq!(shell.modes.active, AppState::Menu);
    assert_eq!(shell.apply(HotKey::Menu, true), (None, Some(restore.clone()), None));
    assert_eq!(shell.modes.active, AppState::Running);
    assert_eq!(shell.apply(HotKey::Menu, true), (None, Some(restore.clone()), None));
    assert_eq!(shell.modes.active, AppState::Menu);
    let mut running = Shell::new(AppState::Running, 0, 1);
    assert_eq!(running.apply(HotKey::Menu, false), (None, Some(restore), None));
    assert_eq!(running.modes.active, AppState::Menu);
    let mut rewinding = Shell::new(AppState::Rewinding, 0, 1);
    assert_eq!(rewinding.apply(HotKey::Menu, true), (None, None, None));
    assert_eq!(rewinding.state(), (AppState::Rewinding, vec![AppState::Running], 0, 1));
}

#[test]
fn frames_per_tick_follows_the_turbo_flag() {
    assert_eq!(IsTurbo(false).frames_per_tick(5), 1);
    assert_eq!(IsTurbo(true).frames_per_tick(5), 5);
    assert_eq!(IsTurbo(true).frames_per_tick(0), 0);
}

#[test]
fn window_hotkeys_ask_the_window() {
    let mut shell = Shell::new(AppState::Running, 0, 1);
    let toggle = format!("{:?}", WindowControlEvent::ToggleFullscreen);
    let restore = format!("{:?}", WindowControlEvent::Restore);
    assert_eq!(shell.apply(HotKey::FullScreen, true), (None, Some(toggle), None));
    assert_eq!(shell.scale.get(), 1);
    assert_eq!(shell.apply(HotKey::ScaleDown, true), (None, Some(restore.clone()), None));
    assert_eq!(shell.scale.get(), 1);
    assert_eq!(shell.apply(HotKey::ScaleUp, true), (None, Some(restore.clone()), None));
    assert_eq!(shell.scale.get(), 2);
    assert_eq!(shell.apply(HotKey::ScaleDown, false), (None, Some(restore), None));
    assert_eq!(shell.scale.get(), 1);
    assert_eq!(shell.state(), (AppState::Running, vec![], 0, 1));
}

#[test]
fn turbo_hotkey_does_nothing_as_an_event() {
    let mut shell = Shell::new(AppState::Running, 3, 2);
    assert_eq!(shell.apply(HotKey::Turbo, true), (None, None, None));
    assert_eq!(shell.state(), (AppState::Running, vec![], 3, 2));
}

#[test]
fn failed_load_is_one_message_and_one_log_line() {
    let mut shell = Shell::new(AppState::Running, 5, 2);
    let got = shell.apply(HotKey::StateLoad, true);
    assert_eq!(got, (Some(EmulatorRequest::LoadState(5)), None, None));
    let report = state_loaded(5, &Err("file not found".to_string()));
    assert_eq!(report.message.0, "Failed to load state");
    assert_eq!(report.log, Some("Failed to load state: file not found".to_string()));
    assert_eq!(shell.state(), (AppState::Running, vec![], 5, 2));
}

#[test]
fn successful_load_and_save_name_the_slot() {
    let report = state_loaded(5, &Ok(()));
    assert_eq!(report.message.0, "State loaded: #5");
    assert_eq!(report.log, None);
    let report = state_saved(0, &Ok(()));
    assert_eq!(report.message.0, "State saved: #0");
    assert_eq!(report.log, None);
    let report = state_saved(123, &Ok(()));
    assert_eq!(report.message.0, "State saved: #123");
}

#[test]
fn failed_save_is_one_message_and_one_log_line() {
    let report = state_saved(9, &Err("disk full".to_string()));
    assert_eq!(report.message.0, "Failed to save state");
    assert_eq!(report.log, Some("Failed to save state: disk full".to_string()));
    let report = state_saved(9, &Err(String::new()));
    assert_eq!(report.log, Some("Failed to save state: ".to_string()));
}

#[test]
fn effects_say_what_was_done_to_the_mode_stack() {
    let cases = [
        (AppState::Menu, HotKey::Menu, true, ModeChange::Replace(AppState::Running)),
        (AppState::Menu, HotKey::Menu, false, ModeChange::Unchanged),
        (AppState::Running, HotKey::Menu, true, ModeChange::Replace(AppState::Menu)),
        (AppState::Running, HotKey::Menu, false, ModeChange::Replace(AppState::Menu)),
        (AppState::Rewinding, HotKey::Menu, true, ModeChange::Unchanged),
        (AppState::Running, HotKey::Rewind, true, ModeChange::Push(AppState::Rewinding)),
        (AppState::Menu, HotKey::Rewind, true, ModeChange::Unchanged),
        (AppState::Rewinding, HotKey::Rewind, true, ModeChange::Unchanged),
        (AppState::Running, HotKey::Reset, true, ModeChange::Unchanged),
        (AppState::Running, HotKey::ScaleUp, true, ModeChange::Unchanged),
    ];
    for (active, hotkey, session, want) in cases {
        let mut shell = Shell::new(active, 0, 1);
        let effects =
            process_hotkey(hotkey, &mut shell.modes, &mut shell.ui, &mut shell.scale, session);
        assert_eq!(effects.mode, want, "{hotkey:?} in {active:?}");
    }
}

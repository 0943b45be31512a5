//! The state of the shell in one place, and the steps of a tick on it.
//!
//! A tick goes through its phases in a fixed order: the input is read and
//! turned into hotkey events; each event is applied, and the window is
//! reconciled with the state that the event leaves behind before the next
//! one is looked at; what the emulation session answers is reported; and
//! the notifications that have had their time are removed last. The host
//! calls one function per phase and carries out what each returns.

use vstd::prelude::*;
use crate::binding::InputSnapshot;
use crate::hotkey::{
    active_after, check_hotkey, emulator_request, events_of, load_message, log_is, message_after,
    mode_change_after, process_hotkey, save_message, scale_after_hotkey, slot_after,
    state_loaded, state_saved, suspended_after, window_request, EmulatorRequest, HotKey, HotKeys,
    IsTurbo, UiState,
};
use crate::message::{
    after_show, is_expired_at, places, still_due, NotificationQueue, NotificationView,
};
use crate::mode::{AppState, ModeChange, ModeStack};
use crate::window::{
    fullscreen_after, fullscreen_command, is_double_click, last_click_after, process_double_click,
    resolution_is, resolution_to_apply, rewind_session_ended, scale_after, window_control_event,
    ButtonState, FullscreenState, LastClicked, MouseButton, ScaleFactor, Size, WindowCommands,
    WindowControlEvent,
};

verus! {

/// Everything the shell remembers from one tick to the next. The bindings
/// and the scale factor are the configuration's, and are handed in where
/// they are needed.
#[derive(Debug)]
pub struct Shell {
    /// The active mode and the modes suspended beneath it.
    pub modes: ModeStack,
    /// The save slot.
    pub ui: UiState,
    /// Whether the window is fullscreen.
    pub fullscreen: FullscreenState,
    /// The last press of the left button.
    pub last_clicked: LastClicked,
    /// Whether turbo is held.
    pub is_turbo: IsTurbo,
    /// The notifications on screen.
    pub messages: NotificationQueue,
    /// The input of the tick before.
    pub previous: InputSnapshot,
}

/// What the host is to do after one hotkey event: first what is asked of
/// the emulation session, then what is asked of the window. `mode` says
/// what was done to the mode stack.
#[derive(Clone, Copy, Debug)]
pub struct HotkeyStep {
    pub emulator: Option<EmulatorRequest>,
    pub window: WindowCommands,
    pub mode: ModeChange,
}

/// What the host is to do after the end of a rewind session.
#[derive(Clone, Copy, Debug)]
pub struct RewindEnd {
    pub window: WindowCommands,
    pub mode: ModeChange,
}

/// What the window is told after `event`, if there is one, in a shell
/// that is left in mode `active`, at scale `scale`, with the fullscreen
/// flag `fullscreen_before` before the event.
pub open spec fn commands_match(
    commands: WindowCommands,
    event: Option<WindowControlEvent>,
    active: AppState,
    menu: Size,
    frame: Option<Size>,
    scale: nat,
    fullscreen_before: bool,
) -> bool {
    match event {
        Some(e) => {
            &&& commands.fullscreen == fullscreen_command(e, fullscreen_before)
            &&& resolution_is(
                commands.resolution,
                resolution_to_apply(
                    active,
                    menu,
                    frame,
                    scale,
                    fullscreen_after(e, fullscreen_before),
                ),
            )
        },
        None => commands.fullscreen.is_none() && commands.resolution.is_none(),
    }
}

/// The fullscreen flag after an event that may or may not be there.
pub open spec fn fullscreen_after_any(event: Option<WindowControlEvent>, fullscreen: bool) -> bool {
    match event {
        Some(e) => fullscreen_after(e, fullscreen),
        None => fullscreen,
    }
}

/// The queue after a text that may or may not be there is shown.
pub open spec fn after_show_any(
    queue: Seq<NotificationView>,
    text: Option<Seq<char>>,
    now_ms: i64,
) -> Seq<NotificationView> {
    match text {
        Some(t) => after_show(queue, t, now_ms),
        None => queue,
    }
}

/// The window event that a pointer button event gives rise to.
pub open spec fn click_request(
    last: Option<i64>,
    button: MouseButton,
    state: ButtonState,
    now_ms: i64,
) -> Option<WindowControlEvent> {
    if button == MouseButton::Left && state == ButtonState::Pressed && is_double_click(
        last,
        now_ms,
    ) {
        Some(WindowControlEvent::ToggleFullscreen)
    } else {
        None
    }
}

/// The window event that the end of a rewind session gives rise to.
pub open spec fn rewind_end_request(active: AppState, suspended: Seq<AppState>) -> Option<
    WindowControlEvent,
> {
    if active == AppState::Rewinding && suspended.len() > 0 {
        Some(WindowControlEvent::Restore)
    } else {
        None
    }
}

impl Shell {
    /// The shell at start-up: in the menu, at slot 0, windowed, with no
    /// notification, no press of the pointer remembered, and with an input
    /// before the first in which nothing is held.
    pub fn new(axis_threshold: i32) -> (shell: Shell)
        ensures
            shell.modes.active == AppState::Menu,
            shell.modes.suspended@.len() == 0,
            shell.modes.is_regular(),
            shell.ui.state_save_slot == 0,
            !shell.fullscreen.0,
            shell.last_clicked.0.is_none(),
            forall|now: i64| !is_double_click(shell.last_clicked.0, now),
            !shell.is_turbo.0,
            shell.messages@.len() == 0,
            shell.previous@.keys.is_empty(),
            shell.previous@.buttons.is_empty(),
            shell.previous@.axes == Map::<crate::keys::GamepadAxis, i32>::empty(),
            shell.previous@.axis_threshold == axis_threshold,
    {
        Shell {
            modes: ModeStack::new(),
            ui: UiState::default(),
            fullscreen: FullscreenState::default(),
            last_clicked: LastClicked::new(),
            is_turbo: IsTurbo(false),
            messages: NotificationQueue::new(),
            previous: InputSnapshot::new(axis_threshold),
        }
    }

    /// Whether a session exists, which is when there is a frame buffer.
    pub open spec fn session(frame: Option<Size>) -> bool {
        frame.is_some()
    }

    /// First phase of a tick: compares `current` with the input of the
    /// tick before, returns the actions that fire, sets the turbo flag,
    /// and keeps `current` for the next tick.
    pub fn read_input(&mut self, hotkeys: &HotKeys, current: InputSnapshot) -> (events: Vec<
        HotKey,
    >)
        ensures
            events@ == events_of(*hotkeys, old(self).previous@, current@),
            final(self).is_turbo.0 == hotkeys.binding(HotKey::Turbo).held(current@),
            final(self).previous == current,
            final(self).modes == old(self).modes,
            final(self).ui == old(self).ui,
            final(self).fullscreen == old(self).fullscreen,
            final(self).last_clicked == old(self).last_clicked,
            final(self).messages == old(self).messages,
    {
        let events = check_hotkey(hotkeys, &self.previous, &current, &mut self.is_turbo);
        self.previous = current;
        events
    }

    /// Second phase, once per event: applies `hotkey`, reconciles the
    /// window with the state that results, and shows what the hotkey has
    /// to tell the user. `frame` is the size of the session's frame
    /// buffer, or `None` where there is no session.
    pub fn apply_hotkey(
        &mut self,
        hotkey: HotKey,
        scaling: &mut ScaleFactor,
        frame: Option<Size>,
        menu: Size,
        now_ms: i64,
    ) -> (step: HotkeyStep)
        ensures
            final(self).modes.active == active_after(
                hotkey,
                old(self).modes.active,
                Self::session(frame),
            ),
            final(self).modes.suspended@ == suspended_after(
                hotkey,
                old(self).modes.active,
                old(self).modes.suspended@,
            ),
            final(self).ui.state_save_slot == slot_after(
                hotkey,
                old(self).ui.state_save_slot,
                Self::session(frame),
            ),
            final(scaling).value() == scale_after_hotkey(hotkey, old(scaling).value()),
            final(self).fullscreen.0 == fullscreen_after_any(
                window_request(hotkey, old(self).modes.active, Self::session(frame)),
                old(self).fullscreen.0,
            ),
            final(self).messages@ == after_show_any(
                old(self).messages@,
                message_after(hotkey, old(self).ui.state_save_slot, Self::session(frame)),
                now_ms,
            ),
            step.emulator == emulator_request(
                hotkey,
                old(self).modes.active,
                old(self).ui.state_save_slot,
                Self::session(frame),
            ),
            step.mode == mode_change_after(hotkey, old(self).modes.active, Self::session(frame)),
            commands_match(
                step.window,
                window_request(hotkey, old(self).modes.active, Self::session(frame)),
                final(self).modes.active,
                menu,
                frame,
                final(scaling).value(),
                old(self).fullscreen.0,
            ),
            final(self).last_clicked == old(self).last_clicked,
            final(self).is_turbo == old(self).is_turbo,
            final(self).previous == old(self).previous,
    {
        let effects = process_hotkey(
            hotkey,
            &mut self.modes,
            &mut self.ui,
            scaling,
            frame.is_some(),
        );
        let window = match effects.window {
            Some(event) => {
                proof {
                    // No hotkey asks for a change of scale by number.
                    assert(!(event is ChangeScale));
                }
                window_control_event(
                    event,
                    &mut self.fullscreen,
                    scaling,
                    self.modes.current(),
                    frame,
                    menu,
                )
            },
            None => WindowCommands { fullscreen: None, resolution: None },
        };
        match effects.message {
            Some(message) => {
                self.messages.show(message.0, now_ms);
            },
            None => {},
        }
        HotkeyStep { emulator: effects.emulator, window, mode: effects.mode }
    }

    /// Third phase, after a request to save: tells the user how saving to
    /// `slot` went, and returns the line for the log where it failed.
    /// Nothing but the notifications changes.
    pub fn session_saved(
        &mut self,
        slot: usize,
        result: &Result<(), String>,
        now_ms: i64,
    ) -> (log: Option<String>)
        ensures
            final(self).messages@ == after_show(
                old(self).messages@,
                save_message(slot, result.is_ok()),
                now_ms,
            ),
            log_is(log, "Failed to save state: "@, *result),
            final(self).modes == old(self).modes,
            final(self).ui == old(self).ui,
            final(self).fullscreen == old(self).fullscreen,
            final(self).last_clicked == old(self).last_clicked,
            final(self).is_turbo == old(self).is_turbo,
            final(self).previous == old(self).previous,
    {
        let report = state_saved(slot, result);
        self.messages.show(report.message.0, now_ms);
        report.log
    }

    /// Third phase, after a request to load: tells the user how loading
    /// from `slot` went, and returns the line for the log where it failed.
    /// Nothing but the notifications changes: a failure leaves the mode
    /// and the slot as they were.
    pub fn session_loaded(
        &mut self,
        slot: usize,
        result: &Result<(), String>,
        now_ms: i64,
    ) -> (log: Option<String>)
        ensures
            final(self).messages@ == after_show(
                old(self).messages@,
                load_message(slot, result.is_ok()),
                now_ms,
            ),
            log_is(log, "Failed to load state: "@, *result),
            final(self).modes == old(self).modes,
            final(self).ui == old(self).ui,
            final(self).fullscreen == old(self).fullscreen,
            final(self).last_clicked == old(self).last_clicked,
            final(self).is_turbo == old(self).is_turbo,
            final(self).previous == old(self).previous,
    {
        let report = state_loaded(slot, result);
        self.messages.show(report.message.0, now_ms);
        report.log
    }

    /// A window control event from elsewhere in the program, such as a
    /// change of scale in the menu: applies it and reconciles the window.
    pub fn window_event(
        &mut self,
        event: WindowControlEvent,
        scaling: &mut ScaleFactor,
        frame: Option<Size>,
        menu: Size,
    ) -> (commands: WindowCommands)
        ensures
            final(self).fullscreen.0 == fullscreen_after(event, old(self).fullscreen.0),
            final(scaling).value() == scale_after(event, old(scaling).value()),
            commands_match(
                commands,
                Some(event),
                old(self).modes.active,
                menu,
                frame,
                final(scaling).value(),
                old(self).fullscreen.0,
            ),
            final(self).modes == old(self).modes,
            final(self).ui == old(self).ui,
            final(self).last_clicked == old(self).last_clicked,
            final(self).is_turbo == old(self).is_turbo,
            final(self).messages == old(self).messages,
            final(self).previous == old(self).previous,
    {
        window_control_event(
            event,
            &mut self.fullscreen,
            scaling,
            self.modes.current(),
            frame,
            menu,
        )
    }

    /// A pointer button event at `now_ms`: a double click of the left
    /// button toggles fullscreen, and the window is reconciled.
    pub fn pointer_button(
        &mut self,
        button: MouseButton,
        state: ButtonState,
        scaling: ScaleFactor,
        frame: Option<Size>,
        menu: Size,
        now_ms: i64,
    ) -> (commands: WindowCommands)
        ensures
            final(self).last_clicked.0 == if button == MouseButton::Left && state
                == ButtonState::Pressed {
                last_click_after(old(self).last_clicked.0, now_ms)
            } else {
                old(self).last_clicked.0
            },
            final(self).fullscreen.0 == fullscreen_after_any(
                click_request(old(self).last_clicked.0, button, state, now_ms),
                old(self).fullscreen.0,
            ),
            commands_match(
                commands,
                click_request(old(self).last_clicked.0, button, state, now_ms),
                old(self).modes.active,
                menu,
                frame,
                scaling.value(),
                old(self).fullscreen.0,
            ),
            final(self).modes == old(self).modes,
            final(self).ui == old(self).ui,
            final(self).is_turbo == old(self).is_turbo,
            final(self).messages == old(self).messages,
            final(self).previous == old(self).previous,
    {
        match process_double_click(&mut self.last_clicked, button, state, now_ms) {
            Some(event) => {
                let mut scale = scaling;
                window_control_event(
                    event,
                    &mut self.fullscreen,
                    &mut scale,
                    self.modes.current(),
                    frame,
                    menu,
                )
            },
            None => WindowCommands { fullscreen: None, resolution: None },
        }
    }

    /// The end of a rewind session: resumes the mode suspended beneath
    /// rewinding, and reconciles the window with it.
    pub fn rewind_ended(
        &mut self,
        scaling: ScaleFactor,
        frame: Option<Size>,
        menu: Size,
    ) -> (end: RewindEnd)
        ensures
            final(self).modes.active == ModeStack::active_after_rewind(
                old(self).modes.active,
                old(self).modes.suspended@,
            ),
            final(self).modes.suspended@ == ModeStack::suspended_after_rewind(
                old(self).modes.active,
                old(self).modes.suspended@,
            ),
            end.mode == ModeStack::change_after_rewind(
                old(self).modes.active,
                old(self).modes.suspended@,
            ),
            commands_match(
                end.window,
                rewind_end_request(old(self).modes.active, old(self).modes.suspended@),
                final(self).modes.active,
                menu,
                frame,
                scaling.value(),
                old(self).fullscreen.0,
            ),
            final(self).ui == old(self).ui,
            final(self).fullscreen == old(self).fullscreen,
            final(self).last_clicked == old(self).last_clicked,
            final(self).is_turbo == old(self).is_turbo,
            final(self).messages == old(self).messages,
            final(self).previous == old(self).previous,
    {
        match rewind_session_ended(&mut self.modes) {
            Some(event) => {
                let mut scale = scaling;
                let window = window_control_event(
                    event,
                    &mut self.fullscreen,
                    &mut scale,
                    self.modes.current(),
                    frame,
                    menu,
                );
                RewindEnd { window, mode: ModeChange::Pop }
            },
            None => RewindEnd {
                window: WindowCommands { fullscreen: None, resolution: None },
                mode: ModeChange::Unchanged,
            },
        }
    }

    /// Last phase of a tick: removes the notifications that have had
    /// their time at `now_ms`, and returns the places at which they stood.
    pub fn expire_messages(&mut self, now_ms: i64) -> (removed: Vec<usize>)
        ensures
            final(self).messages@ == old(self).messages@.filter(still_due(now_ms)),
            removed@.map_values(|p: usize| p as int) == places(old(self).messages@.len()).filter(
                is_expired_at(old(self).messages@, now_ms),
            ),
            final(self).modes == old(self).modes,
            final(self).ui == old(self).ui,
            final(self).fullscreen == old(self).fullscreen,
            final(self).last_clicked == old(self).last_clicked,
            final(self).is_turbo == old(self).is_turbo,
            final(self).previous == old(self).previous,
    {
        self.messages.expire(now_ms)
    }
}

} // verus!

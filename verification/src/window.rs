//! Window geometry: the scale factor, the fullscreen flag, the size the
//! window should have, and double-click detection.

use vstd::prelude::*;
use crate::mode::{AppState, ModeStack};

verus! {

/// Two presses of the left button closer together than this many
/// milliseconds count as a double click.
pub const DOUBLE_CLICK_WINDOW_MS: i64 = 250;

/// After a double click the remembered press is moved this many
/// milliseconds into the past, so that a third quick press starts afresh.
pub const DOUBLE_CLICK_BACKDATE_MS: i64 = 1000;

/// The integer factor by which the emulated picture is magnified. It is
/// never less than 1.
#[derive(Clone, Copy, Debug)]
pub struct ScaleFactor {
    factor: usize,
}

impl ScaleFactor {
    #[verifier::type_invariant]
    spec fn at_least_one(self) -> bool {
        self.factor >= 1
    }

    /// The factor as a number.
    pub closed spec fn value(self) -> nat {
        self.factor as nat
    }

    /// What a requested factor is clamped to.
    pub open spec fn clamped(requested: nat) -> nat {
        if requested < 1 {
            1
        } else {
            requested
        }
    }

    /// The factor one step up. The only ceiling is the largest number the
    /// machine can hold.
    pub open spec fn stepped_up(value: nat) -> nat {
        if value < usize::MAX {
            value + 1
        } else {
            value
        }
    }

    /// The factor one step down, never below 1.
    pub open spec fn stepped_down(value: nat) -> nat {
        if value > 1 {
            (value - 1) as nat
        } else {
            1
        }
    }

    /// The factor nearest to `requested` that is at least 1.
    pub fn new(requested: usize) -> (scale: ScaleFactor)
        ensures
            scale.value() == Self::clamped(requested as nat),
    {
        if requested < 1 {
            ScaleFactor { factor: 1 }
        } else {
            ScaleFactor { factor: requested }
        }
    }

    /// The factor as a number.
    pub fn get(&self) -> (factor: usize)
        ensures
            factor == self.value(),
            factor >= 1,
    {
        proof {
            use_type_invariant(self);
        }
        self.factor
    }

    /// Raises the factor by one.
    pub fn scale_up(&mut self)
        ensures
            final(self).value() == Self::stepped_up(old(self).value()),
    {
        proof {
            use_type_invariant(&*self);
        }
        if self.factor < usize::MAX {
            self.factor = self.factor + 1;
        }
    }

    /// Lowers the factor by one, but not below 1.
    pub fn scale_down(&mut self)
        ensures
            final(self).value() == Self::stepped_down(old(self).value()),
    {
        proof {
            use_type_invariant(&*self);
        }
        if self.factor > 1 {
            self.factor = self.factor - 1;
        }
    }
}

/// Stepping down from 1 leaves 1, no step leads below 1, and stepping up
/// adds one wherever the machine can hold the result.
pub proof fn law_scale_steps(scale: nat)
    ensures
        ScaleFactor::stepped_down(1) == 1,
        ScaleFactor::stepped_down(scale) >= 1,
        scale >= 1 ==> ScaleFactor::stepped_up(scale) >= 1,
        scale < usize::MAX ==> ScaleFactor::stepped_up(scale) == scale + 1,
{
}

/// Whether the window currently covers the display.
#[derive(Clone, Copy, Debug)]
pub struct FullscreenState(pub bool);

impl Default for FullscreenState {
    fn default() -> (state: FullscreenState)
        ensures
            !state.0,
    {
        FullscreenState(false)
    }
}

/// A request to change how the window is presented.
#[derive(Clone, Copy, Debug)]
pub enum WindowControlEvent {
    ToggleFullscreen,
    ChangeScale(usize),
    Restore,
}

/// Width and height of a picture, in its own pixels.
#[derive(Clone, Copy, Debug)]
pub struct Size {
    pub width: usize,
    pub height: usize,
}

/// Width and height of the window, in display pixels.
#[derive(PartialEq, Eq, Structural, Clone, Copy, Debug)]
pub struct Resolution {
    pub width: u128,
    pub height: u128,
}

/// The size the window should have while it is not fullscreen: the menu
/// panel's own size in the menu, and otherwise the frame buffer's size
/// with each dimension multiplied by the scale factor. Outside the menu
/// there is no size to speak of without a frame buffer.
pub open spec fn target_size(
    mode: AppState,
    menu: Size,
    frame: Option<Size>,
    scale: nat,
) -> Option<(nat, nat)> {
    if mode == AppState::Menu {
        Some((menu.width as nat, menu.height as nat))
    } else {
        match frame {
            Some(f) => Some((f.width as nat * scale, f.height as nat * scale)),
            None => None,
        }
    }
}

/// The resolution to hand to the window, if any: none while fullscreen,
/// where the window occupies the display and no explicit size applies.
pub open spec fn resolution_to_apply(
    mode: AppState,
    menu: Size,
    frame: Option<Size>,
    scale: nat,
    fullscreen: bool,
) -> Option<(nat, nat)> {
    if fullscreen {
        None
    } else {
        target_size(mode, menu, frame, scale)
    }
}

/// Whether `resolution` is the exec form of `size`.
pub open spec fn resolution_is(resolution: Option<Resolution>, size: Option<(nat, nat)>) -> bool {
    match (resolution, size) {
        (Some(r), Some((w, h))) => r.width == w && r.height == h,
        (None, None) => true,
        _ => false,
    }
}

proof fn lemma_product_fits(a: usize, b: usize)
    ensures
        a as nat * b as nat <= u128::MAX,
{
    assert(a as nat * b as nat <= 0xffff_ffff_ffff_ffff * 0xffff_ffff_ffff_ffff)
        by (nonlinear_arith)
        requires
            a <= 0xffff_ffff_ffff_ffff,
            b <= 0xffff_ffff_ffff_ffff,
    ;
}

fn scaled(length: usize, factor: usize) -> (product: u128)
    ensures
        product == length as nat * factor as nat,
{
    proof {
        lemma_product_fits(length, factor);
    }
    (length as u128) * (factor as u128)
}

/// Computes the resolution the window is to be given for the mode, the
/// scale factor and the fullscreen flag at hand; `None` means the window
/// keeps whatever size it has.
pub fn restore_window(
    frame: Option<Size>,
    menu: Size,
    app_state: AppState,
    fullscreen: bool,
    scaling: ScaleFactor,
) -> (resolution: Option<Resolution>)
    ensures
        resolution_is(
            resolution,
            resolution_to_apply(app_state, menu, frame, scaling.value(), fullscreen),
        ),
{
    if fullscreen {
        return None;
    }
    match app_state {
        AppState::Menu => Some(
            Resolution { width: menu.width as u128, height: menu.height as u128 },
        ),
        _ => match frame {
            Some(f) => {
                let factor: usize = scaling.get();
                Some(
                    Resolution {
                        width: scaled(f.width, factor),
                        height: scaled(f.height, factor),
                    },
                )
            },
            None => None,
        },
    }
}

/// What the host is to tell the window after a control event: whether to
/// enter or leave fullscreen, and which resolution to set. A field that is
/// `None` asks for nothing.
#[derive(Clone, Copy, Debug)]
pub struct WindowCommands {
    pub fullscreen: Option<bool>,
    pub resolution: Option<Resolution>,
}

/// The fullscreen flag after `event`: toggling flips it, nothing else
/// touches it.
pub open spec fn fullscreen_after(event: WindowControlEvent, fullscreen: bool) -> bool {
    match event {
        WindowControlEvent::ToggleFullscreen => !fullscreen,
        _ => fullscreen,
    }
}

/// The scale factor after `event`: a change of scale sets it, clamped to
/// at least 1; nothing else touches it.
pub open spec fn scale_after(event: WindowControlEvent, scale: nat) -> nat {
    match event {
        WindowControlEvent::ChangeScale(requested) => ScaleFactor::clamped(requested as nat),
        _ => scale,
    }
}

/// The fullscreen command that `event` gives rise to: toggling announces
/// the new flag, nothing else says anything.
pub open spec fn fullscreen_command(event: WindowControlEvent, fullscreen: bool) -> Option<bool> {
    match event {
        WindowControlEvent::ToggleFullscreen => Some(!fullscreen),
        _ => None,
    }
}

/// Applies one window control event: updates the fullscreen flag and the
/// scale factor, then reconciles the window with the state that results.
pub fn window_control_event(
    event: WindowControlEvent,
    fullscreen_state: &mut FullscreenState,
    scaling: &mut ScaleFactor,
    app_state: AppState,
    frame: Option<Size>,
    menu: Size,
) -> (commands: WindowCommands)
    ensures
        final(fullscreen_state).0 == fullscreen_after(event, old(fullscreen_state).0),
        final(scaling).value() == scale_after(event, old(scaling).value()),
        commands.fullscreen == fullscreen_command(event, old(fullscreen_state).0),
        resolution_is(
            commands.resolution,
            resolution_to_apply(
                app_state,
                menu,
                frame,
                final(scaling).value(),
                final(fullscreen_state).0,
            ),
        ),
{
    let mut fullscreen: Option<bool> = None;
    match event {
        WindowControlEvent::ToggleFullscreen => {
            fullscreen_state.0 = !fullscreen_state.0;
            fullscreen = Some(fullscreen_state.0);
        },
        WindowControlEvent::ChangeScale(requested) => {
            *scaling = ScaleFactor::new(requested);
        },
        WindowControlEvent::Restore => {},
    }
    let resolution = restore_window(frame, menu, app_state, fullscreen_state.0, *scaling);
    WindowCommands { fullscreen, resolution }
}

/// Takes note that the rewind session has ended: resumes the mode that
/// rewinding suspended and, where a mode was resumed, asks for the window
/// to be reconciled with it.
pub fn rewind_session_ended(app_state: &mut ModeStack) -> (event: Option<WindowControlEvent>)
    ensures
        final(app_state).active == ModeStack::active_after_rewind(
            old(app_state).active,
            old(app_state).suspended@,
        ),
        final(app_state).suspended@ == ModeStack::suspended_after_rewind(
            old(app_state).active,
            old(app_state).suspended@,
        ),
        event.is_some() == (old(app_state).active == AppState::Rewinding && old(
            app_state,
        ).suspended@.len() > 0),
        event matches Some(e) ==> e is Restore,
{
    if app_state.rewind_ended() {
        Some(WindowControlEvent::Restore)
    } else {
        None
    }
}

/// A button of the pointing device.
#[derive(PartialEq, Eq, Structural, Clone, Copy, Debug)]
pub enum MouseButton {
    Left,
    Right,
    Middle,
    Other(u16),
}

/// Whether a button went down or came up.
#[derive(PartialEq, Eq, Structural, Clone, Copy, Debug)]
pub enum ButtonState {
    Pressed,
    Released,
}

/// The time of the last press of the left button, in milliseconds on the
/// host's monotonic clock, or `None` while there has been no press. After
/// a double click it is the backdated time.
#[derive(Clone, Copy, Debug)]
pub struct LastClicked(pub Option<i64>);

/// Whether a press at `now` completes a double click with the press
/// remembered as `last`. Where no press is remembered, there is nothing
/// to pair with.
pub open spec fn is_double_click(last: Option<i64>, now: i64) -> bool {
    match last {
        Some(before) => now - before < DOUBLE_CLICK_WINDOW_MS,
        None => false,
    }
}

/// The time remembered after a double click at `now`: `now` moved into the
/// past, as far as the clock's range goes.
pub open spec fn backdated(now: i64) -> i64 {
    if now - DOUBLE_CLICK_BACKDATE_MS < i64::MIN {
        i64::MIN
    } else {
        (now - DOUBLE_CLICK_BACKDATE_MS) as i64
    }
}

/// What is remembered after a press at `now`.
pub open spec fn last_click_after(last: Option<i64>, now: i64) -> Option<i64> {
    if is_double_click(last, now) {
        Some(backdated(now))
    } else {
        Some(now)
    }
}

impl LastClicked {
    /// The state at start-up, which remembers no press: whenever the
    /// first press comes, it is a single click.
    pub fn new() -> (last: LastClicked)
        ensures
            last.0.is_none(),
            forall|now: i64| !is_double_click(last.0, now),
            forall|now: i64| last_click_after(last.0, now) == Some(now),
    {
        LastClicked(None)
    }
}

/// Takes note of one pointer button event at time `now_ms`. Only presses
/// of the left button count. Such a press asks for fullscreen to be
/// toggled if it completes a double click, and is remembered either way.
pub fn process_double_click(
    last_clicked: &mut LastClicked,
    button: MouseButton,
    state: ButtonState,
    now_ms: i64,
) -> (event: Option<WindowControlEvent>)
    ensures
        !(button == MouseButton::Left && state == ButtonState::Pressed) ==> {
            &&& event.is_none()
            &&& final(last_clicked).0 == old(last_clicked).0
        },
        button == MouseButton::Left && state == ButtonState::Pressed ==> {
            &&& event.is_some() == is_double_click(old(last_clicked).0, now_ms)
            &&& final(last_clicked).0 == last_click_after(old(last_clicked).0, now_ms)
        },
        event matches Some(e) ==> e is ToggleFullscreen,
{
    if !(button == MouseButton::Left && state == ButtonState::Pressed) {
        return None;
    }
    let paired = match last_clicked.0 {
        Some(before) => now_ms as i128 - (before as i128) < DOUBLE_CLICK_WINDOW_MS as i128,
        None => false,
    };
    if paired {
        let moved_back: i64 = if now_ms < i64::MIN + DOUBLE_CLICK_BACKDATE_MS {
            i64::MIN
        } else {
            now_ms - DOUBLE_CLICK_BACKDATE_MS
        };
        last_clicked.0 = Some(moved_back);
        Some(WindowControlEvent::ToggleFullscreen)
    } else {
        last_clicked.0 = Some(now_ms);
        None
    }
}

/// The first press after start-up is a single click, whenever it comes,
/// and is remembered at its own time.
pub proof fn law_first_click_is_single(now: i64)
    ensures
        !is_double_click(None, now),
        last_click_after(None, now) == Some(now),
{
}

/// Of two presses of the left button, the first of which was not itself
/// taken for a double click, the second toggles fullscreen exactly when
/// it comes less than 250 ms after the first.
pub proof fn law_double_click_window(before: Option<i64>, first: i64, second: i64)
    requires
        !is_double_click(before, first),
    ensures
        is_double_click(last_click_after(before, first), second) <==> second - first
            < DOUBLE_CLICK_WINDOW_MS,
{
}

/// A press that follows a double click, however quickly, is not taken for
/// another double click: backdating keeps it from pairing up with the
/// press before it.
pub proof fn law_third_click_starts_afresh(before: Option<i64>, second: i64, third: i64)
    requires
        is_double_click(before, second),
        second <= third,
        i64::MIN + DOUBLE_CLICK_BACKDATE_MS <= second,
    ensures
        !is_double_click(last_click_after(before, second), third),
        last_click_after(last_click_after(before, second), third) == Some(third),
{
}

} // verus!

//! The application mode and the stack of modes suspended beneath it.

use vstd::prelude::*;

verus! {

/// What the application is showing: the menu, the live emulation, or the
/// rewind browser.
#[derive(PartialEq, Eq, Structural, Clone, Copy, Debug, Hash)]
pub enum AppState {
    Menu,
    Running,
    Rewinding,
}

/// What one step did to the mode stack, for a host that keeps a stack of
/// its own in line with this one.
#[derive(PartialEq, Eq, Structural, Clone, Copy, Debug)]
pub enum ModeChange {
    /// Nothing.
    Unchanged,
    /// The active mode was replaced by this one.
    Replace(AppState),
    /// This mode was pushed, suspending the one that was active.
    Push(AppState),
    /// The active mode was dropped, resuming the one suspended last.
    Pop,
}

impl ModeChange {
    /// The active mode that results when this change is made to a stack.
    pub open spec fn active(self, active: AppState, suspended: Seq<AppState>) -> AppState {
        match self {
            ModeChange::Unchanged => active,
            ModeChange::Replace(mode) => mode,
            ModeChange::Push(mode) => mode,
            ModeChange::Pop => if suspended.len() > 0 {
                suspended.last()
            } else {
                active
            },
        }
    }

    /// The suspended modes that result when this change is made to a
    /// stack.
    pub open spec fn suspended(self, active: AppState, suspended: Seq<AppState>) -> Seq<AppState> {
        match self {
            ModeChange::Unchanged => suspended,
            ModeChange::Replace(_) => suspended,
            ModeChange::Push(_) => suspended.push(active),
            ModeChange::Pop => if suspended.len() > 0 {
                suspended.drop_last()
            } else {
                suspended
            },
        }
    }
}

/// The active mode together with the modes it suspended, oldest first.
///
/// The active mode is a field of its own, so there is always one: popping
/// can only ever uncover a suspended mode, never leave the stack empty.
#[derive(Clone, Debug)]
pub struct ModeStack {
    pub active: AppState,
    pub suspended: Vec<AppState>,
}

impl ModeStack {
    /// The whole stack as a sequence, the active mode last.
    pub open spec fn modes(self) -> Seq<AppState> {
        self.suspended@.push(self.active)
    }

    /// The shapes the stack takes when it is only ever driven, from its
    /// initial state, by `menu_action`, `rewind_action` and `rewind_ended`:
    /// the menu or the running session with nothing beneath, or rewinding
    /// with the running session beneath.
    pub open spec fn regular(active: AppState, suspended: Seq<AppState>) -> bool {
        ||| active == AppState::Menu && suspended.len() == 0
        ||| active == AppState::Running && suspended.len() == 0
        ||| active == AppState::Rewinding && suspended == seq![AppState::Running]
    }

    /// Whether this stack has one of the regular shapes.
    pub open spec fn is_regular(self) -> bool {
        Self::regular(self.active, self.suspended@)
    }

    /// The active mode once a rewind session has ended: from Rewinding,
    /// the mode suspended last; otherwise the mode that was active.
    pub open spec fn active_after_rewind(active: AppState, suspended: Seq<AppState>) -> AppState {
        if active == AppState::Rewinding && suspended.len() > 0 {
            suspended.last()
        } else {
            active
        }
    }

    /// The suspended modes once a rewind session has ended.
    pub open spec fn suspended_after_rewind(active: AppState, suspended: Seq<AppState>) -> Seq<
        AppState,
    > {
        if active == AppState::Rewinding && suspended.len() > 0 {
            suspended.drop_last()
        } else {
            suspended
        }
    }

    /// What the end of a rewind session does to the stack: from
    /// Rewinding with a mode beneath, a pop; otherwise nothing.
    pub open spec fn change_after_rewind(active: AppState, suspended: Seq<AppState>) -> ModeChange {
        if active == AppState::Rewinding && suspended.len() > 0 {
            ModeChange::Pop
        } else {
            ModeChange::Unchanged
        }
    }

    /// The change that the end of a rewind session reports is the change
    /// it makes.
    pub proof fn law_rewind_change_is_the_step(active: AppState, suspended: Seq<AppState>)
        ensures
            Self::change_after_rewind(active, suspended).active(active, suspended)
                == Self::active_after_rewind(active, suspended),
            Self::change_after_rewind(active, suspended).suspended(active, suspended)
                == Self::suspended_after_rewind(active, suspended),
    {
    }

    /// The end of a rewind session takes a regular stack to a regular
    /// stack, and never uncovers anything but the running session: the
    /// menu, once left, is not beneath anything to be popped back to.
    pub proof fn law_rewind_end_keeps_regular(active: AppState, suspended: Seq<AppState>)
        requires
            Self::regular(active, suspended),
        ensures
            Self::regular(
                Self::active_after_rewind(active, suspended),
                Self::suspended_after_rewind(active, suspended),
            ),
            active == AppState::Rewinding ==> Self::active_after_rewind(active, suspended)
                == AppState::Running,
            active != AppState::Rewinding ==> Self::active_after_rewind(active, suspended)
                == active,
    {
        if active == AppState::Rewinding {
            assert(suspended.last() == AppState::Running);
            assert(suspended.drop_last().len() == 0);
        }
    }

    /// The mode that Menu toggles to: Running gives way to Menu; Menu
    /// gives way to Running if there is a session to run; anything else
    /// stays.
    pub open spec fn menu_target(active: AppState, session_exists: bool) -> AppState {
        match active {
            AppState::Running => AppState::Menu,
            AppState::Menu => if session_exists {
                AppState::Running
            } else {
                AppState::Menu
            },
            AppState::Rewinding => AppState::Rewinding,
        }
    }

    /// The stack at start-up: the menu, with nothing beneath it.
    pub fn new() -> (stack: ModeStack)
        ensures
            stack.active == AppState::Menu,
            stack.suspended@ == Seq::<AppState>::empty(),
            stack.is_regular(),
    {
        ModeStack { active: AppState::Menu, suspended: Vec::new() }
    }

    /// The active mode.
    pub fn current(&self) -> (mode: AppState)
        ensures
            mode == self.active,
    {
        self.active
    }

    /// Replaces the active mode. The mode it replaces is abandoned, not
    /// suspended.
    pub fn set(&mut self, mode: AppState)
        ensures
            final(self).active == mode,
            final(self).suspended@ == old(self).suspended@,
    {
        self.active = mode;
    }

    /// Makes `mode` the active mode and suspends the one that was active.
    pub fn push(&mut self, mode: AppState)
        ensures
            final(self).active == mode,
            final(self).suspended@ == old(self).suspended@.push(old(self).active),
            final(self).modes() == old(self).modes().push(mode),
    {
        self.suspended.push(self.active);
        self.active = mode;
    }

    /// Drops the active mode and resumes the one suspended last. With
    /// nothing suspended the stack is left as it is and `None` is returned.
    pub fn pop(&mut self) -> (left: Option<AppState>)
        ensures
            old(self).suspended@.len() == 0 ==> left.is_none() && *final(self) == *old(self),
            old(self).suspended@.len() > 0 ==> {
                &&& left == Some(old(self).active)
                &&& final(self).active == old(self).suspended@.last()
                &&& final(self).suspended@ == old(self).suspended@.drop_last()
                &&& final(self).modes() == old(self).modes().drop_last()
            },
    {
        if self.suspended.len() == 0 {
            return None;
        }
        match self.suspended.pop() {
            Some(resumed) => {
                let left = self.active;
                self.active = resumed;
                assert(self.modes() =~= old(self).modes().drop_last());
                Some(left)
            },
            None => None,
        }
    }

    /// The Menu action: leaves Running for Menu, or Menu for Running when
    /// a session exists. In every other situation nothing changes.
    /// Returns whether the mode changed.
    pub fn menu_action(&mut self, session_exists: bool) -> (changed: bool)
        ensures
            final(self).active == Self::menu_target(old(self).active, session_exists),
            final(self).suspended@ == old(self).suspended@,
            changed == (final(self).active != old(self).active),
    {
        match self.active {
            AppState::Running => {
                self.set(AppState::Menu);
                true
            },
            AppState::Menu => {
                if session_exists {
                    self.set(AppState::Running);
                    true
                } else {
                    false
                }
            },
            AppState::Rewinding => false,
        }
    }

    /// The Rewind action: from Running, suspends Running beneath
    /// Rewinding. From any other mode nothing changes. Returns whether
    /// rewinding was entered, in which case the host owes the session an
    /// automatic save.
    pub fn rewind_action(&mut self) -> (entered: bool)
        ensures
            entered == (old(self).active == AppState::Running),
            entered ==> final(self).active == AppState::Rewinding,
            entered ==> final(self).suspended@ == old(self).suspended@.push(AppState::Running),
            entered ==> final(self).modes() == old(self).modes().push(AppState::Rewinding),
            !entered ==> *final(self) == *old(self),
    {
        match self.active {
            AppState::Running => {
                self.push(AppState::Rewinding);
                true
            },
            _ => false,
        }
    }

    /// The end of a rewind session: from Rewinding, resumes the mode
    /// suspended beneath it. From any other mode, or with nothing
    /// suspended, nothing changes. Returns whether a mode was resumed.
    pub fn rewind_ended(&mut self) -> (resumed: bool)
        ensures
            resumed == (old(self).active == AppState::Rewinding && old(self).suspended@.len() > 0),
            final(self).active == Self::active_after_rewind(
                old(self).active,
                old(self).suspended@,
            ),
            final(self).suspended@ == Self::suspended_after_rewind(
                old(self).active,
                old(self).suspended@,
            ),
            resumed ==> final(self).modes() == old(self).modes().drop_last(),
            !resumed ==> *final(self) == *old(self),
    {
        match self.active {
            AppState::Rewinding => self.pop().is_some(),
            _ => false,
        }
    }
}

} // verus!

//! The hotkeys: what they are called, what they are bound to, when they
//! fire, and what each of them does to the state of the shell.

use vstd::prelude::*;
use vstd::string::StringExecFns;
use crate::binding::{BindingNode, BindingTree, InputSnapshot, SnapshotView};
use crate::keys::{Gamepad, GamepadButton, GamepadButtonType, KeyCode};
use crate::message::ShowMessage;
use crate::mode::{AppState, ModeChange, ModeStack};
use crate::text::{decimal, numbered};
use crate::window::{ScaleFactor, WindowControlEvent};

verus! {

/// The actions that a hotkey can trigger.
#[derive(PartialEq, Eq, Structural, Clone, Copy, Debug)]
pub enum HotKey {
    Reset,
    Turbo,
    StateSave,
    StateLoad,
    NextSlot,
    PrevSlot,
    Rewind,
    Menu,
    FullScreen,
    ScaleUp,
    ScaleDown,
}

impl HotKey {
    /// The name under which the action is shown to the user.
    pub open spec fn label(self) -> Seq<char> {
        match self {
            HotKey::Reset => "Reset"@,
            HotKey::Turbo => "Turbo"@,
            HotKey::StateSave => "State Save"@,
            HotKey::StateLoad => "State Load"@,
            HotKey::NextSlot => "State Slot Next"@,
            HotKey::PrevSlot => "State Slot Prev"@,
            HotKey::Rewind => "Start Rewindng"@,
            HotKey::Menu => "Enter/Leave Menu"@,
            HotKey::FullScreen => "Fullsceen"@,
            HotKey::ScaleUp => "Window Scale +"@,
            HotKey::ScaleDown => "Window Scale -"@,
        }
    }

    /// Every action once, in the order in which they are declared.
    pub open spec fn sequence() -> Seq<HotKey> {
        seq![
            HotKey::Reset,
            HotKey::Turbo,
            HotKey::StateSave,
            HotKey::StateLoad,
            HotKey::NextSlot,
            HotKey::PrevSlot,
            HotKey::Rewind,
            HotKey::Menu,
            HotKey::FullScreen,
            HotKey::ScaleUp,
            HotKey::ScaleDown,
        ]
    }

    /// The name under which the action is shown to the user.
    pub fn to_string(&self) -> (name: String)
        ensures
            name@ == self.label(),
    {
        match self {
            HotKey::Reset => String::from_str("Reset"),
            HotKey::Turbo => String::from_str("Turbo"),
            HotKey::StateSave => String::from_str("State Save"),
            HotKey::StateLoad => String::from_str("State Load"),
            HotKey::NextSlot => String::from_str("State Slot Next"),
            HotKey::PrevSlot => String::from_str("State Slot Prev"),
            HotKey::Rewind => String::from_str("Start Rewindng"),
            HotKey::Menu => String::from_str("Enter/Leave Menu"),
            HotKey::FullScreen => String::from_str("Fullsceen"),
            HotKey::ScaleUp => String::from_str("Window Scale +"),
            HotKey::ScaleDown => String::from_str("Window Scale -"),
        }
    }

    /// Every action once, in the order in which they are declared.
    pub fn all() -> (actions: Vec<HotKey>)
        ensures
            actions@ == Self::sequence(),
    {
        let actions = vec![
            HotKey::Reset,
            HotKey::Turbo,
            HotKey::StateSave,
            HotKey::StateLoad,
            HotKey::NextSlot,
            HotKey::PrevSlot,
            HotKey::Rewind,
            HotKey::Menu,
            HotKey::FullScreen,
            HotKey::ScaleUp,
            HotKey::ScaleDown,
        ];
        assert(actions@ =~= Self::sequence());
        actions
    }

    /// `sequence` leaves no action out and names none twice.
    pub proof fn law_sequence_is_exhaustive(hotkey: HotKey)
        ensures
            Self::sequence().len() == 11,
            exists|i: int|
                0 <= i < Self::sequence().len() && #[trigger] Self::sequence()[i] == hotkey,
            forall|i: int, j: int|
                0 <= i < j < Self::sequence().len() ==> Self::sequence()[i] != Self::sequence()[j],
    {
        let all = Self::sequence();
        match hotkey {
            HotKey::Reset => assert(all[0] == hotkey),
            HotKey::Turbo => assert(all[1] == hotkey),
            HotKey::StateSave => assert(all[2] == hotkey),
            HotKey::StateLoad => assert(all[3] == hotkey),
            HotKey::NextSlot => assert(all[4] == hotkey),
            HotKey::PrevSlot => assert(all[5] == hotkey),
            HotKey::Rewind => assert(all[6] == hotkey),
            HotKey::Menu => assert(all[7] == hotkey),
            HotKey::FullScreen => assert(all[8] == hotkey),
            HotKey::ScaleUp => assert(all[9] == hotkey),
            HotKey::ScaleDown => assert(all[10] == hotkey),
        }
    }
}

/// A button of the first gamepad.
pub open spec fn first_pad(button_type: GamepadButtonType) -> GamepadButton {
    GamepadButton { gamepad: Gamepad { id: 0 }, button_type }
}

fn first_pad_button(button_type: GamepadButtonType) -> (node: BindingNode)
    ensures
        node@ == BindingTree::button(first_pad(button_type)),
{
    BindingNode::pad_button(GamepadButton::new(Gamepad::new(0), button_type))
}

fn with_left_control(key: KeyCode) -> (node: BindingNode)
    ensures
        node@ == BindingTree::both(BindingTree::key(KeyCode::LControl), BindingTree::key(key)),
{
    BindingNode::both(BindingNode::keycode(KeyCode::LControl), BindingNode::keycode(key))
}

impl HotKey {
    /// What the action is bound to unless the user says otherwise.
    pub open spec fn default_tree(self) -> BindingTree {
        match self {
            HotKey::Reset => BindingTree::both(
                BindingTree::key(KeyCode::LControl),
                BindingTree::key(KeyCode::R),
            ),
            HotKey::Turbo => BindingTree::either(
                BindingTree::key(KeyCode::Tab),
                BindingTree::button(first_pad(GamepadButtonType::LeftTrigger2)),
            ),
            HotKey::StateSave => BindingTree::both(
                BindingTree::key(KeyCode::LControl),
                BindingTree::key(KeyCode::S),
            ),
            HotKey::StateLoad => BindingTree::both(
                BindingTree::key(KeyCode::LControl),
                BindingTree::key(KeyCode::L),
            ),
            HotKey::NextSlot => BindingTree::both(
                BindingTree::key(KeyCode::LControl),
                BindingTree::key(KeyCode::N),
            ),
            HotKey::PrevSlot => BindingTree::both(
                BindingTree::key(KeyCode::LControl),
                BindingTree::key(KeyCode::P),
            ),
            HotKey::Rewind => BindingTree::either(
                BindingTree::key(KeyCode::Back),
                BindingTree::both(
                    BindingTree::button(first_pad(GamepadButtonType::LeftTrigger2)),
                    BindingTree::button(first_pad(GamepadButtonType::RightTrigger2)),
                ),
            ),
            HotKey::Menu => BindingTree::key(KeyCode::Escape),
            HotKey::FullScreen => BindingTree::both(
                BindingTree::key(KeyCode::RAlt),
                BindingTree::key(KeyCode::Return),
            ),
            HotKey::ScaleUp => BindingTree::both(
                BindingTree::key(KeyCode::LControl),
                BindingTree::either(
                    BindingTree::key(KeyCode::Plus),
                    BindingTree::key(KeyCode::Equals),
                ),
            ),
            HotKey::ScaleDown => BindingTree::both(
                BindingTree::key(KeyCode::LControl),
                BindingTree::key(KeyCode::Minus),
            ),
        }
    }

    /// What the action is bound to unless the user says otherwise.
    pub fn default_binding(self) -> (node: BindingNode)
        ensures
            node@ == self.default_tree(),
    {
        match self {
            HotKey::Reset => with_left_control(KeyCode::R),
            HotKey::Turbo => BindingNode::either(
                BindingNode::keycode(KeyCode::Tab),
                first_pad_button(GamepadButtonType::LeftTrigger2),
            ),
            HotKey::StateSave => with_left_control(KeyCode::S),
            HotKey::StateLoad => with_left_control(KeyCode::L),
            HotKey::NextSlot => with_left_control(KeyCode::N),
            HotKey::PrevSlot => with_left_control(KeyCode::P),
            HotKey::Rewind => BindingNode::either(
                BindingNode::keycode(KeyCode::Back),
                BindingNode::both(
                    first_pad_button(GamepadButtonType::LeftTrigger2),
                    first_pad_button(GamepadButtonType::RightTrigger2),
                ),
            ),
            HotKey::Menu => BindingNode::keycode(KeyCode::Escape),
            HotKey::FullScreen => BindingNode::both(
                BindingNode::keycode(KeyCode::RAlt),
                BindingNode::keycode(KeyCode::Return),
            ),
            HotKey::ScaleUp => BindingNode::both(
                BindingNode::keycode(KeyCode::LControl),
                BindingNode::either(
                    BindingNode::keycode(KeyCode::Plus),
                    BindingNode::keycode(KeyCode::Equals),
                ),
            ),
            HotKey::ScaleDown => with_left_control(KeyCode::Minus),
        }
    }
}

/// The bindings of the hotkeys as the user has set them. An action that
/// the list does not mention is bound to its default; where the list
/// mentions an action more than once, the first mention counts.
#[derive(Debug)]
pub struct HotKeys(pub Vec<(HotKey, BindingNode)>);

impl HotKeys {
    /// What the first entry for `hotkey` in `entries` binds it to.
    pub open spec fn assigned(entries: Seq<(HotKey, BindingNode)>, hotkey: HotKey) -> Option<
        BindingTree,
    >
        decreases entries.len(),
    {
        if entries.len() == 0 {
            None
        } else if entries.first().0 == hotkey {
            Some(entries.first().1@)
        } else {
            Self::assigned(entries.drop_first(), hotkey)
        }
    }

    /// What `hotkey` is bound to: the user's binding where there is one,
    /// and the default otherwise.
    pub open spec fn binding(self, hotkey: HotKey) -> BindingTree {
        match Self::assigned(self.0@, hotkey) {
            Some(tree) => tree,
            None => hotkey.default_tree(),
        }
    }

    proof fn lemma_assigned_after(entries: Seq<(HotKey, BindingNode)>, hotkey: HotKey, from: int)
        requires
            0 <= from <= entries.len(),
            forall|j: int| 0 <= j < from ==> (#[trigger] entries[j]).0 != hotkey,
        ensures
            Self::assigned(entries, hotkey) == Self::assigned(entries.skip(from), hotkey),
        decreases from,
    {
        if from == 0 {
            assert(entries.skip(0) =~= entries);
        } else {
            assert(entries[0].0 != hotkey);
            assert forall|j: int| 0 <= j < from - 1 implies (#[trigger] entries.drop_first()[j]).0
                != hotkey by {
                assert(entries.drop_first()[j] == entries[j + 1]);
            }
            Self::lemma_assigned_after(entries.drop_first(), hotkey, from - 1);
            assert(entries.drop_first().skip(from - 1) =~= entries.skip(from));
        }
    }

    proof fn lemma_assigned_elsewhere(
        entries: Seq<(HotKey, BindingNode)>,
        at: int,
        entry: (HotKey, BindingNode),
        other: HotKey,
    )
        requires
            0 <= at < entries.len(),
            entries[at].0 == entry.0,
            other != entry.0,
        ensures
            Self::assigned(entries.update(at, entry), other) == Self::assigned(entries, other),
        decreases at,
    {
        let updated = entries.update(at, entry);
        if at == 0 {
            assert(updated.drop_first() =~= entries.drop_first());
        } else {
            assert(updated.first() == entries.first());
            assert(updated.drop_first() =~= entries.drop_first().update(at - 1, entry));
            Self::lemma_assigned_elsewhere(entries.drop_first(), at - 1, entry, other);
        }
    }

    proof fn lemma_assigned_appended(
        entries: Seq<(HotKey, BindingNode)>,
        entry: (HotKey, BindingNode),
        hotkey: HotKey,
    )
        ensures
            Self::assigned(entries.push(entry), hotkey) == match Self::assigned(entries, hotkey) {
                Some(tree) => Some(tree),
                None => if entry.0 == hotkey {
                    Some(entry.1@)
                } else {
                    None
                },
            },
        decreases entries.len(),
    {
        let appended = entries.push(entry);
        if entries.len() == 0 {
            assert(appended.first() == entry);
            assert(appended.drop_first() =~= entries);
        } else {
            assert(appended.first() == entries.first());
            assert(appended.drop_first() =~= entries.drop_first().push(entry));
            Self::lemma_assigned_appended(entries.drop_first(), entry, hotkey);
        }
    }

    /// The user's binding of `hotkey`, if there is one.
    pub fn key_assign(&self, hotkey: HotKey) -> (found: Option<&BindingNode>)
        ensures
            match found {
                Some(node) => Self::assigned(self.0@, hotkey) == Some(node@),
                None => Self::assigned(self.0@, hotkey).is_none(),
            },
    {
        let n: usize = self.0.len();
        let mut i: usize = 0;
        while i < n
            invariant
                i <= n,
                n == self.0@.len(),
                forall|j: int| 0 <= j < i ==> (#[trigger] self.0@[j]).0 != hotkey,
            decreases n - i,
        {
            if self.0[i].0 == hotkey {
                proof {
                    Self::lemma_assigned_after(self.0@, hotkey, i as int);
                    assert(self.0@.skip(i as int).first() == self.0@[i as int]);
                }
                return Some(&self.0[i].1);
            }
            i = i + 1;
        }
        proof {
            Self::lemma_assigned_after(self.0@, hotkey, n as int);
        }
        None
    }

    /// Binds `hotkey` to `node`, in place of what it was bound to. The
    /// bindings of the other actions stay as they are.
    pub fn set(&mut self, hotkey: HotKey, node: BindingNode)
        ensures
            final(self).binding(hotkey) == node@,
            forall|other: HotKey|
                other != hotkey ==> final(self).binding(other) == old(self).binding(other),
    {
        let n: usize = self.0.len();
        let mut i: usize = 0;
        while i < n
            invariant
                i <= n,
                n == self.0@.len(),
                *self == *old(self),
                forall|j: int| 0 <= j < i ==> (#[trigger] self.0@[j]).0 != hotkey,
            decreases n - i,
        {
            if self.0[i].0 == hotkey {
                let ghost before = self.0@;
                let ghost node_tree = node@;
                self.0[i] = (hotkey, node);
                proof {
                    let after = self.0@;
                    let entry = after[i as int];
                    assert(after =~= before.update(i as int, entry));
                    Self::lemma_assigned_after(after, hotkey, i as int);
                    assert(after.skip(i as int).first() == entry);
                    assert forall|other: HotKey| other != hotkey implies self.binding(other)
                        == old(self).binding(other) by {
                        Self::lemma_assigned_elsewhere(before, i as int, entry, other);
                    }
                }
                return;
            }
            i = i + 1;
        }
        let ghost before = self.0@;
        self.0.push((hotkey, node));
        proof {
            let entry = self.0@[n as int];
            assert(self.0@ =~= before.push(entry));
            Self::lemma_assigned_after(before, hotkey, n as int);
            Self::lemma_assigned_appended(before, entry, hotkey);
            assert forall|other: HotKey| other != hotkey implies self.binding(other) == old(
                self,
            ).binding(other) by {
                Self::lemma_assigned_appended(before, entry, other);
            }
        }
    }

    /// Whether `hotkey` is held in `snapshot`.
    pub fn pressed(&self, hotkey: HotKey, snapshot: &InputSnapshot) -> (held: bool)
        ensures
            held == self.binding(hotkey).held(snapshot@),
    {
        match self.key_assign(hotkey) {
            Some(node) => node.held(snapshot),
            None => hotkey.default_binding().held(snapshot),
        }
    }

    /// Whether `hotkey` became held between `previous` and `current`.
    pub fn just_pressed(
        &self,
        hotkey: HotKey,
        previous: &InputSnapshot,
        current: &InputSnapshot,
    ) -> (fired: bool)
        ensures
            fired == self.binding(hotkey).just_pressed(previous@, current@),
    {
        match self.key_assign(hotkey) {
            Some(node) => node.just_pressed(previous, current),
            None => hotkey.default_binding().just_pressed(previous, current),
        }
    }
}

impl Default for HotKeys {
    /// The bindings before the user has changed any: every action, in the
    /// order of `HotKey::sequence`, with its default.
    fn default() -> (hotkeys: HotKeys)
        ensures
            forall|hotkey: HotKey| hotkeys.binding(hotkey) == hotkey.default_tree(),
            hotkeys.0@.len() == HotKey::sequence().len(),
            forall|i: int|
                0 <= i < hotkeys.0@.len() ==> (#[trigger] hotkeys.0@[i]).0 == HotKey::sequence()[i]
                    && hotkeys.0@[i].1@ == HotKey::sequence()[i].default_tree(),
    {
        let actions = HotKey::all();
        let mut entries: Vec<(HotKey, BindingNode)> = Vec::new();
        let n: usize = actions.len();
        let mut i: usize = 0;
        while i < n
            invariant
                i <= n,
                n == actions@.len(),
                actions@ == HotKey::sequence(),
                entries@.len() == i,
                forall|j: int|
                    0 <= j < i ==> (#[trigger] entries@[j]).0 == actions@[j] && entries@[j].1@
                        == actions@[j].default_tree(),
            decreases n - i,
        {
            let hotkey = actions[i];
            entries.push((hotkey, hotkey.default_binding()));
            i = i + 1;
        }
        let hotkeys = HotKeys(entries);
        proof {
            assert forall|hotkey: HotKey| hotkeys.binding(hotkey) == hotkey.default_tree() by {
                Self::lemma_entries_bind_defaults(hotkeys.0@, hotkey);
            }
        }
        hotkeys
    }
}

impl HotKeys {
    proof fn lemma_entries_bind_defaults(entries: Seq<(HotKey, BindingNode)>, hotkey: HotKey)
        requires
            forall|j: int|
                0 <= j < entries.len() ==> (#[trigger] entries[j]).1@
                    == entries[j].0.default_tree(),
        ensures
            match Self::assigned(entries, hotkey) {
                Some(tree) => tree == hotkey.default_tree(),
                None => true,
            },
        decreases entries.len(),
    {
        if entries.len() > 0 {
            if entries.first().0 != hotkey {
                let rest = entries.drop_first();
                assert forall|j: int| 0 <= j < rest.len() implies (#[trigger] rest[j]).1@
                    == rest[j].0.default_tree() by {
                    assert(rest[j] == entries[j + 1]);
                }
                Self::lemma_entries_bind_defaults(rest, hotkey);
            } else {
                assert(entries[0].1@ == entries[0].0.default_tree());
            }
        }
    }
}

/// Whether the turbo action is held at this tick.
#[derive(Clone, Copy, Debug)]
pub struct IsTurbo(pub bool);

impl IsTurbo {
    /// How many frames the session advances per frame shown: the
    /// configured number while turbo is held, and one otherwise.
    pub fn frames_per_tick(&self, frame_skip_on_turbo: usize) -> (frames: usize)
        ensures
            frames == if self.0 {
                frame_skip_on_turbo
            } else {
                1
            },
    {
        if self.0 {
            frame_skip_on_turbo
        } else {
            1
        }
    }
}

/// The test that an action passes when it gives rise to an event between
/// `previous` and `current`: it is not the turbo action, which is a level
/// and never an event, and its binding became held.
pub open spec fn gives_event(hotkeys: HotKeys, previous: SnapshotView, current: SnapshotView)
    -> spec_fn(HotKey) -> bool {
    |hotkey: HotKey|
        hotkey != HotKey::Turbo && hotkeys.binding(hotkey).just_pressed(previous, current)
}

/// The events of one tick: the actions that give rise to one, each once,
/// in the order of `HotKey::sequence`.
pub open spec fn events_of(hotkeys: HotKeys, previous: SnapshotView, current: SnapshotView) -> Seq<
    HotKey,
> {
    HotKey::sequence().filter(gives_event(hotkeys, previous, current))
}

proof fn lemma_filter_keeps_distinct(actions: Seq<HotKey>, test: spec_fn(HotKey) -> bool)
    requires
        actions.no_duplicates(),
    ensures
        actions.filter(test).no_duplicates(),
    decreases actions.len(),
{
    reveal(Seq::filter);
    if actions.len() > 0 {
        let rest = actions.drop_last();
        lemma_filter_keeps_distinct(rest, test);
        if test(actions.last()) {
            let kept = rest.filter(test);
            assert forall|i: int| 0 <= i < kept.len() implies kept[i] != actions.last() by {
                assert(kept.contains(kept[i]));
                rest.lemma_filter_contains_rev(test, kept[i]);
                let k = choose|k: int| 0 <= k < rest.len() && rest[k] == kept[i];
                assert(actions[k] == kept[i]);
            }
        }
    }
}

/// No tick brings two events of one action.
pub proof fn law_one_event_per_action(
    hotkeys: HotKeys,
    previous: SnapshotView,
    current: SnapshotView,
)
    ensures
        events_of(hotkeys, previous, current).no_duplicates(),
        forall|i: int|
            0 <= i < events_of(hotkeys, previous, current).len() ==> {
                let event = #[trigger] events_of(hotkeys, previous, current)[i];
                event != HotKey::Turbo && hotkeys.binding(event).just_pressed(previous, current)
            },
{
    HotKey::law_sequence_is_exhaustive(HotKey::Reset);
    lemma_filter_keeps_distinct(HotKey::sequence(), gives_event(hotkeys, previous, current));
    assert forall|i: int| 0 <= i < events_of(hotkeys, previous, current).len() implies {
        let event = #[trigger] events_of(hotkeys, previous, current)[i];
        event != HotKey::Turbo && hotkeys.binding(event).just_pressed(previous, current)
    } by {
        HotKey::sequence().lemma_filter_pred(gives_event(hotkeys, previous, current), i);
    }
}

/// An action whose binding stays held from one tick to the next brings no
/// event on the second: held over many ticks, it fires on the first only.
pub proof fn law_held_action_is_silent(
    hotkeys: HotKeys,
    hotkey: HotKey,
    previous: SnapshotView,
    current: SnapshotView,
)
    requires
        hotkeys.binding(hotkey).held(previous),
    ensures
        !events_of(hotkeys, previous, current).contains(hotkey),
{
    if events_of(hotkeys, previous, current).contains(hotkey) {
        let events = events_of(hotkeys, previous, current);
        let i = choose|i: int| 0 <= i < events.len() && events[i] == hotkey;
        HotKey::sequence().lemma_filter_pred(gives_event(hotkeys, previous, current), i);
    }
}

/// Looks at the input of one tick: returns the actions that fire on it,
/// and sets the turbo flag to whether the turbo action is held.
pub fn check_hotkey(
    hotkeys: &HotKeys,
    previous: &InputSnapshot,
    current: &InputSnapshot,
    is_turbo: &mut IsTurbo,
) -> (events: Vec<HotKey>)
    ensures
        events@ == events_of(*hotkeys, previous@, current@),
        final(is_turbo).0 == hotkeys.binding(HotKey::Turbo).held(current@),
{
    let actions = HotKey::all();
    let mut events: Vec<HotKey> = Vec::new();
    let n: usize = actions.len();
    let mut i: usize = 0;
    let ghost test = gives_event(*hotkeys, previous@, current@);
    proof {
        reveal(Seq::filter);
        assert(actions@.take(0) =~= Seq::<HotKey>::empty());
    }
    while i < n
        invariant
            i <= n,
            n == actions@.len(),
            actions@ == HotKey::sequence(),
            test == gives_event(*hotkeys, previous@, current@),
            events@ == actions@.take(i as int).filter(test),
        decreases n - i,
    {
        let hotkey = actions[i];
        proof {
            reveal(Seq::filter);
            assert(actions@.take(i + 1).drop_last() =~= actions@.take(i as int));
            assert(actions@.take(i + 1).last() == hotkey);
        }
        if hotkey != HotKey::Turbo && hotkeys.just_pressed(hotkey, previous, current) {
            events.push(hotkey);
        }
        i = i + 1;
    }
    assert(actions@.take(n as int) =~= actions@);
    is_turbo.0 = hotkeys.pressed(HotKey::Turbo, current);
    events
}

/// What the user interface remembers between ticks.
#[derive(Clone, Copy, Debug)]
pub struct UiState {
    /// The save slot that StateSave and StateLoad work on.
    pub state_save_slot: usize,
}

impl Default for UiState {
    fn default() -> (state: UiState)
        ensures
            state.state_save_slot == 0,
    {
        UiState { state_save_slot: 0 }
    }
}

/// Something the host is to ask of the emulation session.
#[derive(PartialEq, Eq, Structural, Clone, Copy, Debug)]
pub enum EmulatorRequest {
    /// Reset the emulated machine.
    Reset,
    /// Save the state to the slot.
    SaveState(usize),
    /// Load the state from the slot.
    LoadState(usize),
    /// Record an automatic save, from which rewinding starts.
    PushAutoSave,
}

/// What the host is to do after one hotkey event, in the order of the
/// fields. A field that is `None` asks for nothing.
#[derive(Debug)]
pub struct HotkeyEffects {
    pub emulator: Option<EmulatorRequest>,
    pub window: Option<WindowControlEvent>,
    pub message: Option<ShowMessage>,
    /// What was done to the mode stack.
    pub mode: ModeChange,
}

/// What `hotkey` does to the mode stack: Menu replaces the active mode
/// where it toggles, Rewind pushes Rewinding from the running session, and
/// nothing else touches the stack.
pub open spec fn mode_change_after(
    hotkey: HotKey,
    active: AppState,
    session_exists: bool,
) -> ModeChange {
    match hotkey {
        HotKey::Menu => if ModeStack::menu_target(active, session_exists) != active {
            ModeChange::Replace(ModeStack::menu_target(active, session_exists))
        } else {
            ModeChange::Unchanged
        },
        HotKey::Rewind => if active == AppState::Running {
            ModeChange::Push(AppState::Rewinding)
        } else {
            ModeChange::Unchanged
        },
        _ => ModeChange::Unchanged,
    }
}

/// The change that a hotkey reports is the change it makes to the stack.
pub proof fn law_mode_change_is_the_step(
    hotkey: HotKey,
    active: AppState,
    suspended: Seq<AppState>,
    session_exists: bool,
)
    ensures
        mode_change_after(hotkey, active, session_exists).active(active, suspended) == active_after(
            hotkey,
            active,
            session_exists,
        ),
        mode_change_after(hotkey, active, session_exists).suspended(active, suspended)
            == suspended_after(hotkey, active, suspended),
{
}

/// The active mode after `hotkey`: Menu toggles between the menu and the
/// running session, Rewind enters rewinding from the running session, and
/// no other action touches it.
pub open spec fn active_after(hotkey: HotKey, active: AppState, session_exists: bool) -> AppState {
    match hotkey {
        HotKey::Menu => ModeStack::menu_target(active, session_exists),
        HotKey::Rewind => if active == AppState::Running {
            AppState::Rewinding
        } else {
            active
        },
        _ => active,
    }
}

/// The suspended modes after `hotkey`: Rewind from the running session
/// suspends it; nothing else touches them.
pub open spec fn suspended_after(hotkey: HotKey, active: AppState, suspended: Seq<AppState>) -> Seq<
    AppState,
> {
    if hotkey == HotKey::Rewind && active == AppState::Running {
        suspended.push(active)
    } else {
        suspended
    }
}

/// The save slot after `hotkey`. Where a session exists, NextSlot moves it
/// one up and PrevSlot one down, but not below 0; the only ceiling is the
/// largest number the machine can hold. Without a session there are no
/// slots to move between, and it stays.
pub open spec fn slot_after(hotkey: HotKey, slot: usize, session_exists: bool) -> usize {
    match hotkey {
        HotKey::NextSlot => if session_exists && slot < usize::MAX {
            (slot + 1) as usize
        } else {
            slot
        },
        HotKey::PrevSlot => if session_exists && slot > 0 {
            (slot - 1) as usize
        } else {
            slot
        },
        _ => slot,
    }
}

/// The scale factor after `hotkey`.
pub open spec fn scale_after_hotkey(hotkey: HotKey, scale: nat) -> nat {
    match hotkey {
        HotKey::ScaleUp => ScaleFactor::stepped_up(scale),
        HotKey::ScaleDown => ScaleFactor::stepped_down(scale),
        _ => scale,
    }
}

/// What `hotkey` asks of the emulation session. Reset, StateSave and
/// StateLoad ask only where a session exists; Rewind asks for an automatic
/// save when it enters rewinding.
pub open spec fn emulator_request(
    hotkey: HotKey,
    active: AppState,
    slot: usize,
    session_exists: bool,
) -> Option<EmulatorRequest> {
    match hotkey {
        HotKey::Reset => if session_exists {
            Some(EmulatorRequest::Reset)
        } else {
            None
        },
        HotKey::StateSave => if session_exists {
            Some(EmulatorRequest::SaveState(slot))
        } else {
            None
        },
        HotKey::StateLoad => if session_exists {
            Some(EmulatorRequest::LoadState(slot))
        } else {
            None
        },
        HotKey::Rewind => if active == AppState::Running {
            Some(EmulatorRequest::PushAutoSave)
        } else {
            None
        },
        _ => None,
    }
}

/// What `hotkey` asks of the window: FullScreen asks to toggle
/// fullscreen; a change of scale, and any change of mode, asks for the
/// window to be reconciled with the state that results.
pub open spec fn window_request(hotkey: HotKey, active: AppState, session_exists: bool) -> Option<
    WindowControlEvent,
> {
    match hotkey {
        HotKey::FullScreen => Some(WindowControlEvent::ToggleFullscreen),
        HotKey::ScaleUp => Some(WindowControlEvent::Restore),
        HotKey::ScaleDown => Some(WindowControlEvent::Restore),
        _ => if active_after(hotkey, active, session_exists) != active {
            Some(WindowControlEvent::Restore)
        } else {
            None
        },
    }
}

/// The text that `hotkey` shows to the user at once, where `slot` is the
/// save slot before it. What StateSave and StateLoad show depends on how
/// the session fares; see `state_saved` and `state_loaded`.
pub open spec fn message_after(hotkey: HotKey, slot: usize, session_exists: bool) -> Option<
    Seq<char>,
> {
    if !session_exists {
        None
    } else {
        match hotkey {
            HotKey::Reset => Some("Reset machine"@),
            HotKey::NextSlot => Some(
                "State slot changed: #"@ + decimal(slot_after(hotkey, slot, true) as nat),
            ),
            HotKey::PrevSlot => Some(
                "State slot changed: #"@ + decimal(slot_after(hotkey, slot, true) as nat),
            ),
            _ => None,
        }
    }
}

/// Whether `message` carries `text`, or neither is there.
pub open spec fn message_is(message: Option<ShowMessage>, text: Option<Seq<char>>) -> bool {
    match (message, text) {
        (Some(m), Some(t)) => m.0@ == t,
        (None, None) => true,
        _ => false,
    }
}

/// Applies one hotkey event to the state of the shell and says what the
/// host is to do about it. `session_exists` tells whether there is an
/// emulation session.
pub fn process_hotkey(
    hotkey: HotKey,
    app_state: &mut ModeStack,
    ui_state: &mut UiState,
    scaling: &mut ScaleFactor,
    session_exists: bool,
) -> (effects: HotkeyEffects)
    ensures
        final(app_state).active == active_after(hotkey, old(app_state).active, session_exists),
        final(app_state).suspended@ == suspended_after(
            hotkey,
            old(app_state).active,
            old(app_state).suspended@,
        ),
        final(ui_state).state_save_slot == slot_after(
            hotkey,
            old(ui_state).state_save_slot,
            session_exists,
        ),
        final(scaling).value() == scale_after_hotkey(hotkey, old(scaling).value()),
        effects.emulator == emulator_request(
            hotkey,
            old(app_state).active,
            old(ui_state).state_save_slot,
            session_exists,
        ),
        effects.window == window_request(hotkey, old(app_state).active, session_exists),
        effects.mode == mode_change_after(hotkey, old(app_state).active, session_exists),
        message_is(
            effects.message,
            message_after(hotkey, old(ui_state).state_save_slot, session_exists),
        ),
{
    let mut effects = HotkeyEffects {
        emulator: None,
        window: None,
        message: None,
        mode: ModeChange::Unchanged,
    };
    match hotkey {
        HotKey::Reset => {
            if session_exists {
                effects.emulator = Some(EmulatorRequest::Reset);
                effects.message = Some(ShowMessage(String::from_str("Reset machine")));
            }
        },
        HotKey::StateSave => {
            if session_exists {
                effects.emulator = Some(EmulatorRequest::SaveState(ui_state.state_save_slot));
            }
        },
        HotKey::StateLoad => {
            if session_exists {
                effects.emulator = Some(EmulatorRequest::LoadState(ui_state.state_save_slot));
            }
        },
        HotKey::NextSlot => {
            if session_exists {
                if ui_state.state_save_slot < usize::MAX {
                    ui_state.state_save_slot = ui_state.state_save_slot + 1;
                }
                effects.message = Some(
                    ShowMessage(numbered("State slot changed: #", ui_state.state_save_slot)),
                );
            }
        },
        HotKey::PrevSlot => {
            if session_exists {
                if ui_state.state_save_slot > 0 {
                    ui_state.state_save_slot = ui_state.state_save_slot - 1;
                }
                effects.message = Some(
                    ShowMessage(numbered("State slot changed: #", ui_state.state_save_slot)),
                );
            }
        },
        HotKey::Rewind => {
            if app_state.rewind_action() {
                effects.emulator = Some(EmulatorRequest::PushAutoSave);
                effects.window = Some(WindowControlEvent::Restore);
                effects.mode = ModeChange::Push(AppState::Rewinding);
            }
        },
        HotKey::Menu => {
            if app_state.menu_action(session_exists) {
                effects.window = Some(WindowControlEvent::Restore);
                effects.mode = ModeChange::Replace(app_state.current());
            }
        },
        HotKey::FullScreen => {
            effects.window = Some(WindowControlEvent::ToggleFullscreen);
        },
        HotKey::ScaleUp => {
            scaling.scale_up();
            effects.window = Some(WindowControlEvent::Restore);
        },
        HotKey::ScaleDown => {
            scaling.scale_down();
            effects.window = Some(WindowControlEvent::Restore);
        },
        HotKey::Turbo => {},
    }
    effects
}

/// What the user is told, and what goes to the log, once the session has
/// answered a request to save or load a state.
#[derive(Debug)]
pub struct StateReport {
    pub message: ShowMessage,
    pub log: Option<String>,
}

/// The text shown after an attempt to save to `slot`.
pub open spec fn save_message(slot: usize, saved: bool) -> Seq<char> {
    if saved {
        "State saved: #"@ + decimal(slot as nat)
    } else {
        "Failed to save state"@
    }
}

/// The text shown after an attempt to load from `slot`.
pub open spec fn load_message(slot: usize, loaded: bool) -> Seq<char> {
    if loaded {
        "State loaded: #"@ + decimal(slot as nat)
    } else {
        "Failed to load state"@
    }
}

/// Whether `log` is the one line `prefix` followed by the error of
/// `result`, where there is an error, and nothing where there is none.
pub open spec fn log_is(
    log: Option<String>,
    prefix: Seq<char>,
    result: Result<(), String>,
) -> bool {
    match (log, result) {
        (Some(line), Err(error)) => line@ == prefix + error@,
        (None, Ok(_)) => true,
        _ => false,
    }
}

fn failure_line(prefix: &str, error: &String) -> (line: String)
    ensures
        line@ == prefix@ + error@,
{
    let mut line = String::from_str(prefix);
    line.append(error.as_str());
    line
}

/// Reports how saving to `slot` went. A failure is shown to the user and
/// logged; it changes nothing else.
pub fn state_saved(slot: usize, result: &Result<(), String>) -> (report: StateReport)
    ensures
        report.message.0@ == save_message(slot, result.is_ok()),
        log_is(report.log, "Failed to save state: "@, *result),
{
    match result {
        Ok(_) => StateReport { message: ShowMessage(numbered("State saved: #", slot)), log: None },
        Err(error) => StateReport {
            message: ShowMessage(String::from_str("Failed to save state")),
            log: Some(failure_line("Failed to save state: ", error)),
        },
    }
}

/// Reports how loading from `slot` went. A failure is shown to the user
/// and logged; it changes nothing else.
pub fn state_loaded(slot: usize, result: &Result<(), String>) -> (report: StateReport)
    ensures
        report.message.0@ == load_message(slot, result.is_ok()),
        log_is(report.log, "Failed to load state: "@, *result),
{
    match result {
        Ok(_) => StateReport { message: ShowMessage(numbered("State loaded: #", slot)), log: None },
        Err(error) => StateReport {
            message: ShowMessage(String::from_str("Failed to load state")),
            log: Some(failure_line("Failed to load state: ", error)),
        },
    }
}

/// Whatever hotkey arrives, a mode stack of regular shape keeps a regular
/// shape: it never holds more than the running session beneath
/// rewinding, and it is never empty.
pub proof fn law_hotkeys_keep_stack_regular(
    hotkey: HotKey,
    active: AppState,
    suspended: Seq<AppState>,
    session_exists: bool,
)
    requires
        ModeStack::regular(active, suspended),
    ensures
        ModeStack::regular(
            active_after(hotkey, active, session_exists),
            suspended_after(hotkey, active, suspended),
        ),
{
    if hotkey == HotKey::Rewind && active == AppState::Running {
        assert(suspended.push(active) =~= seq![AppState::Running]);
    }
}

/// Rewind from the running session enters rewinding, with the running
/// session suspended beneath, and asks for one automatic save and for the
/// window to be reconciled. From the menu or from rewinding itself it
/// changes nothing and asks for nothing.
pub proof fn law_rewind_only_from_running(
    active: AppState,
    suspended: Seq<AppState>,
    slot: usize,
    scale: nat,
    session_exists: bool,
)
    ensures
        active == AppState::Running ==> {
            &&& active_after(HotKey::Rewind, active, session_exists) == AppState::Rewinding
            &&& suspended_after(HotKey::Rewind, active, suspended) == suspended.push(
                AppState::Running,
            )
            &&& emulator_request(HotKey::Rewind, active, slot, session_exists) == Some(
                EmulatorRequest::PushAutoSave,
            )
            &&& window_request(HotKey::Rewind, active, session_exists) == Some(
                WindowControlEvent::Restore,
            )
        },
        active != AppState::Running ==> {
            &&& active_after(HotKey::Rewind, active, session_exists) == active
            &&& suspended_after(HotKey::Rewind, active, suspended) == suspended
            &&& emulator_request(HotKey::Rewind, active, slot, session_exists).is_none()
            &&& window_request(HotKey::Rewind, active, session_exists).is_none()
        },
        slot_after(HotKey::Rewind, slot, session_exists) == slot,
        scale_after_hotkey(HotKey::Rewind, scale) == scale,
        message_after(HotKey::Rewind, slot, session_exists).is_none(),
{
}

/// The save slot never goes below 0, and one step up followed by one step
/// down leads back to where it started.
pub proof fn law_slot_steps(slot: usize, session_exists: bool)
    ensures
        slot_after(HotKey::PrevSlot, 0, session_exists) == 0,
        slot < usize::MAX ==> slot_after(HotKey::NextSlot, slot, true) == slot + 1,
        slot < usize::MAX ==> slot_after(
            HotKey::PrevSlot,
            slot_after(HotKey::NextSlot, slot, session_exists),
            session_exists,
        ) == slot,
{
}

/// StateLoad touches neither the mode nor the save slot nor the scale
/// factor, whether or not the session then manages to load; a failure
/// to load is reported in one message and one line of the log.
pub proof fn law_state_load_keeps_mode_and_slot(
    active: AppState,
    suspended: Seq<AppState>,
    slot: usize,
    scale: nat,
    session_exists: bool,
)
    ensures
        active_after(HotKey::StateLoad, active, session_exists) == active,
        suspended_after(HotKey::StateLoad, active, suspended) == suspended,
        slot_after(HotKey::StateLoad, slot, session_exists) == slot,
        scale_after_hotkey(HotKey::StateLoad, scale) == scale,
        window_request(HotKey::StateLoad, active, session_exists).is_none(),
        message_after(HotKey::StateLoad, slot, session_exists).is_none(),
        load_message(slot, false) == "Failed to load state"@,
{
}

impl HotKeys {
    proof fn lemma_same_entries_same_bindings(
        first: Seq<(HotKey, BindingNode)>,
        second: Seq<(HotKey, BindingNode)>,
        hotkey: HotKey,
    )
        requires
            first.len() == second.len(),
            forall|j: int|
                0 <= j < first.len() ==> (#[trigger] first[j]).0 == second[j].0 && first[j].1@
                    == second[j].1@,
        ensures
            Self::assigned(first, hotkey) == Self::assigned(second, hotkey),
        decreases first.len(),
    {
        if first.len() > 0 {
            assert(first[0].0 == second[0].0 && first[0].1@ == second[0].1@);
            let a = first.drop_first();
            let b = second.drop_first();
            assert forall|j: int| 0 <= j < a.len() implies (#[trigger] a[j]).0 == b[j].0 && a[j].1@
                == b[j].1@ by {
                assert(a[j] == first[j + 1]);
                assert(b[j] == second[j + 1]);
            }
            Self::lemma_same_entries_same_bindings(a, b, hotkey);
        }
    }
}

impl Clone for HotKeys {
    /// Bindings that bind every action to the same tree.
    fn clone(&self) -> (copy: HotKeys)
        ensures
            forall|hotkey: HotKey| copy.binding(hotkey) == self.binding(hotkey),
    {
        let n: usize = self.0.len();
        let mut entries: Vec<(HotKey, BindingNode)> = Vec::new();
        let mut i: usize = 0;
        while i < n
            invariant
                i <= n,
                n == self.0@.len(),
                entries@.len() == i,
                forall|j: int|
                    0 <= j < i ==> (#[trigger] entries@[j]).0 == self.0@[j].0 && entries@[j].1@
                        == self.0@[j].1@,
            decreases n - i,
        {
            entries.push((self.0[i].0, self.0[i].1.clone()));
            i = i + 1;
        }
        let copy = HotKeys(entries);
        proof {
            assert forall|hotkey: HotKey| copy.binding(hotkey) == self.binding(hotkey) by {
                Self::lemma_same_entries_same_bindings(copy.0@, self.0@, hotkey);
            }
        }
        copy
    }
}

} // verus!

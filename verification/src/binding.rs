//! Bindings: trees of conjunctions and disjunctions over atomic input
//! predicates, and their evaluation against snapshots of the input.

use vstd::prelude::*;
use crate::keys::{GamepadAxis, GamepadAxisDir, GamepadButton, KeyCode};

verus! {

/// The smallest thing a binding can ask of the input.
#[derive(PartialEq, Eq, Structural, Clone, Copy, Debug)]
pub enum AtomicPredicate {
    /// The key is down.
    KeyHeld(KeyCode),
    /// The gamepad button is down.
    PadButtonHeld(GamepadButton),
    /// The gamepad axis is pushed beyond the threshold towards the given
    /// side.
    PadAxisHeld(GamepadAxis, GamepadAxisDir),
}

/// A binding: what has to be held for an action to count as held.
#[derive(Debug)]
pub enum BindingNode {
    /// Holds when the predicate does.
    Leaf(AtomicPredicate),
    /// Holds when every child does; with no child, always.
    All(Vec<BindingNode>),
    /// Holds when some child does; with no child, never.
    Any(Vec<BindingNode>),
}

/// A binding as contracts see it.
pub enum BindingTree {
    Leaf(AtomicPredicate),
    All(Seq<BindingTree>),
    Any(Seq<BindingTree>),
}

impl BindingNode {
    /// The tree that this binding stands for.
    pub open spec fn tree(self) -> BindingTree
        decreases self,
    {
        match self {
            BindingNode::Leaf(predicate) => BindingTree::Leaf(predicate),
            BindingNode::All(children) => BindingTree::All(Self::trees(children@)),
            BindingNode::Any(children) => BindingTree::Any(Self::trees(children@)),
        }
    }

    /// The trees that a list of bindings stands for, in its order.
    pub open spec fn trees(children: Seq<BindingNode>) -> Seq<BindingTree>
        decreases children,
    {
        if children.len() == 0 {
            Seq::empty()
        } else {
            Self::trees(children.drop_last()).push(children.last().tree())
        }
    }

    /// `trees` goes through the list child by child.
    pub proof fn lemma_trees(children: Seq<BindingNode>)
        ensures
            Self::trees(children).len() == children.len(),
            forall|i: int|
                0 <= i < children.len() ==> (#[trigger] Self::trees(children)[i])
                    == children[i].tree(),
        decreases children.len(),
    {
        if children.len() > 0 {
            Self::lemma_trees(children.drop_last());
            assert forall|i: int| 0 <= i < children.len() implies (#[trigger] Self::trees(
                children,
            )[i]) == children[i].tree() by {
                if i < children.len() - 1 {
                    assert(children.drop_last()[i] == children[i]);
                }
            }
        }
    }
}

impl View for BindingNode {
    type V = BindingTree;

    open spec fn view(&self) -> BindingTree {
        self.tree()
    }
}

/// The position of one analog axis. The unit is the host's; only its
/// comparison with the snapshot's threshold matters.
#[derive(PartialEq, Eq, Structural, Clone, Copy, Debug)]
pub struct AxisSample {
    pub axis: GamepadAxis,
    pub value: i32,
}

/// The raw state of every input device at one tick.
#[derive(Clone, Debug)]
pub struct InputSnapshot {
    /// The keys that are down.
    pub keys: Vec<KeyCode>,
    /// The gamepad buttons that are down.
    pub buttons: Vec<GamepadButton>,
    /// The positions of the gamepad axes. Where an axis occurs more than
    /// once, its last sample counts.
    pub axes: Vec<AxisSample>,
    /// How far from rest an axis has to be to count as pushed.
    pub axis_threshold: i32,
}

/// A snapshot as contracts see it.
pub struct SnapshotView {
    pub keys: Set<KeyCode>,
    pub buttons: Set<GamepadButton>,
    pub axes: Map<GamepadAxis, i32>,
    pub axis_threshold: i32,
}

/// The position of each axis that `samples` mentions, later samples
/// overriding earlier ones.
pub open spec fn axis_positions(samples: Seq<AxisSample>) -> Map<GamepadAxis, i32>
    decreases samples.len(),
{
    if samples.len() == 0 {
        Map::empty()
    } else {
        axis_positions(samples.drop_last()).insert(samples.last().axis, samples.last().value)
    }
}

/// Whether an axis at `value` counts as pushed towards `dir`.
pub open spec fn is_pushed(value: i32, dir: GamepadAxisDir, threshold: i32) -> bool {
    match dir {
        GamepadAxisDir::Pos => value > threshold,
        GamepadAxisDir::Neg => value < -threshold,
    }
}

impl View for InputSnapshot {
    type V = SnapshotView;

    open spec fn view(&self) -> SnapshotView {
        SnapshotView {
            keys: self.keys@.to_set(),
            buttons: self.buttons@.to_set(),
            axes: axis_positions(self.axes@),
            axis_threshold: self.axis_threshold,
        }
    }
}

impl SnapshotView {
    /// Whether the predicate is true of this snapshot. A device that the
    /// snapshot does not mention holds nothing.
    pub open spec fn holds(self, predicate: AtomicPredicate) -> bool {
        match predicate {
            AtomicPredicate::KeyHeld(key) => self.keys.contains(key),
            AtomicPredicate::PadButtonHeld(button) => self.buttons.contains(button),
            AtomicPredicate::PadAxisHeld(axis, dir) => self.axes.contains_key(axis) && is_pushed(
                self.axes[axis],
                dir,
                self.axis_threshold,
            ),
        }
    }
}

impl BindingTree {
    /// The binding that asks for one key.
    pub open spec fn key(key: KeyCode) -> BindingTree {
        BindingTree::Leaf(AtomicPredicate::KeyHeld(key))
    }

    /// The binding that asks for one gamepad button.
    pub open spec fn button(button: GamepadButton) -> BindingTree {
        BindingTree::Leaf(AtomicPredicate::PadButtonHeld(button))
    }

    /// The binding that asks for `first` and `second` at once.
    pub open spec fn both(first: BindingTree, second: BindingTree) -> BindingTree {
        BindingTree::All(seq![first, second])
    }

    /// The binding that asks for `first` or `second`.
    pub open spec fn either(first: BindingTree, second: BindingTree) -> BindingTree {
        BindingTree::Any(seq![first, second])
    }

    /// Whether the binding is held in `snapshot`.
    pub open spec fn held(self, snapshot: SnapshotView) -> bool
        decreases self,
    {
        match self {
            BindingTree::Leaf(predicate) => snapshot.holds(predicate),
            BindingTree::All(children) => forall|i: int|
                0 <= i < children.len() ==> (#[trigger] children[i]).held(snapshot),
            BindingTree::Any(children) => exists|i: int|
                0 <= i < children.len() && (#[trigger] children[i]).held(snapshot),
        }
    }

    /// Whether the binding became held between two consecutive snapshots:
    /// it is held in the current one and was not in the previous one. The
    /// tree is compared as a whole; what its single leaves did in between
    /// does not enter.
    pub open spec fn just_pressed(self, previous: SnapshotView, current: SnapshotView) -> bool {
        self.held(current) && !self.held(previous)
    }
}

proof fn lemma_axis_lookup(samples: Seq<AxisSample>, axis: GamepadAxis, at: int)
    requires
        -1 <= at < samples.len(),
        at >= 0 ==> samples[at].axis == axis,
        forall|j: int| at < j < samples.len() ==> (#[trigger] samples[j]).axis != axis,
    ensures
        at >= 0 ==> axis_positions(samples).contains_key(axis) && axis_positions(samples)[axis]
            == samples[at].value,
        at < 0 ==> !axis_positions(samples).contains_key(axis),
    decreases samples.len(),
{
    if samples.len() > 0 {
        if at < samples.len() - 1 {
            assert(samples.last().axis != axis);
            assert forall|j: int| at < j < samples.drop_last().len() implies (
            #[trigger] samples.drop_last()[j]).axis != axis by {
                assert(samples.drop_last()[j] == samples[j]);
            }
            if at >= 0 {
                assert(samples.drop_last()[at] == samples[at]);
            }
            lemma_axis_lookup(samples.drop_last(), axis, at);
        }
    }
}

impl InputSnapshot {
    /// A snapshot in which nothing is held.
    pub fn new(axis_threshold: i32) -> (snapshot: InputSnapshot)
        ensures
            snapshot@.keys == Set::<KeyCode>::empty(),
            snapshot@.buttons == Set::<GamepadButton>::empty(),
            snapshot@.axes == Map::<GamepadAxis, i32>::empty(),
            snapshot@.axis_threshold == axis_threshold,
    {
        let snapshot = InputSnapshot {
            keys: Vec::new(),
            buttons: Vec::new(),
            axes: Vec::new(),
            axis_threshold,
        };
        assert(snapshot@.keys =~= Set::<KeyCode>::empty());
        assert(snapshot@.buttons =~= Set::<GamepadButton>::empty());
        snapshot
    }

    /// Records that `key` is down.
    pub fn press_key(&mut self, key: KeyCode)
        ensures
            final(self)@.keys == old(self)@.keys.insert(key),
            final(self)@.buttons == old(self)@.buttons,
            final(self)@.axes == old(self)@.axes,
            final(self)@.axis_threshold == old(self)@.axis_threshold,
    {
        self.keys.push(key);
        proof {
            old(self).keys@.lemma_push_to_set_commute(key);
        }
    }

    /// Records that `button` is down.
    pub fn press_button(&mut self, button: GamepadButton)
        ensures
            final(self)@.keys == old(self)@.keys,
            final(self)@.buttons == old(self)@.buttons.insert(button),
            final(self)@.axes == old(self)@.axes,
            final(self)@.axis_threshold == old(self)@.axis_threshold,
    {
        self.buttons.push(button);
        proof {
            old(self).buttons@.lemma_push_to_set_commute(button);
        }
    }

    /// Records the position of `axis`, in place of any recorded before.
    pub fn set_axis(&mut self, axis: GamepadAxis, value: i32)
        ensures
            final(self)@.keys == old(self)@.keys,
            final(self)@.buttons == old(self)@.buttons,
            final(self)@.axes == old(self)@.axes.insert(axis, value),
            final(self)@.axis_threshold == old(self)@.axis_threshold,
    {
        self.axes.push(AxisSample { axis, value });
        assert(self.axes@.drop_last() =~= old(self).axes@);
    }

    /// Whether `key` is down.
    pub fn key_down(&self, key: KeyCode) -> (down: bool)
        ensures
            down == self@.keys.contains(key),
    {
        let n: usize = self.keys.len();
        let mut i: usize = 0;
        while i < n
            invariant
                i <= n,
                n == self.keys@.len(),
                forall|j: int| 0 <= j < i ==> self.keys@[j] != key,
            decreases n - i,
        {
            if self.keys[i] == key {
                return true;
            }
            i = i + 1;
        }
        false
    }

    /// Whether `button` is down.
    pub fn button_down(&self, button: GamepadButton) -> (down: bool)
        ensures
            down == self@.buttons.contains(button),
    {
        let n: usize = self.buttons.len();
        let mut i: usize = 0;
        while i < n
            invariant
                i <= n,
                n == self.buttons@.len(),
                forall|j: int| 0 <= j < i ==> self.buttons@[j] != button,
            decreases n - i,
        {
            if self.buttons[i] == button {
                return true;
            }
            i = i + 1;
        }
        false
    }

    /// The position of `axis`, if the snapshot records one.
    pub fn axis_value(&self, axis: GamepadAxis) -> (value: Option<i32>)
        ensures
            value.is_some() == self@.axes.contains_key(axis),
            value matches Some(v) ==> v == self@.axes[axis],
    {
        let mut i: usize = self.axes.len();
        while i > 0
            invariant
                i <= self.axes@.len(),
                forall|j: int|
                    i <= j < self.axes@.len() ==> (#[trigger] self.axes@[j]).axis != axis,
            decreases i,
        {
            i = i - 1;
            if self.axes[i].axis == axis {
                proof {
                    lemma_axis_lookup(self.axes@, axis, i as int);
                }
                return Some(self.axes[i].value);
            }
        }
        proof {
            lemma_axis_lookup(self.axes@, axis, -1);
        }
        None
    }

    /// Whether `predicate` is true of this snapshot.
    pub fn holds(&self, predicate: AtomicPredicate) -> (held: bool)
        ensures
            held == self@.holds(predicate),
    {
        match predicate {
            AtomicPredicate::KeyHeld(key) => self.key_down(key),
            AtomicPredicate::PadButtonHeld(button) => self.button_down(button),
            AtomicPredicate::PadAxisHeld(axis, dir) => match self.axis_value(axis) {
                Some(value) => match dir {
                    GamepadAxisDir::Pos => value > self.axis_threshold,
                    GamepadAxisDir::Neg => (value as i64) < -(self.axis_threshold as i64),
                },
                None => false,
            },
        }
    }
}

impl BindingNode {
    /// Whether the binding is held in `snapshot`.
    pub fn held(&self, snapshot: &InputSnapshot) -> (held: bool)
        ensures
            held == self@.held(snapshot@),
        decreases self,
    {
        match self {
            BindingNode::Leaf(predicate) => snapshot.holds(*predicate),
            BindingNode::All(children) => {
                let n: usize = children.len();
                let mut i: usize = 0;
                proof {
                    BindingNode::lemma_trees(children@);
                }
                while i < n
                    invariant
                        i <= n,
                        n == children.len(),
                        *self == BindingNode::All(*children),
                        self@ == BindingTree::All(BindingNode::trees(children@)),
                        forall|j: int| 0 <= j < i ==> (#[trigger] children[j])@.held(snapshot@),
                    decreases n - i,
                {
                    if !children[i].held(snapshot) {
                        proof {
                            BindingNode::lemma_trees(children@);
                        }
                        assert(self@->All_0[i as int] == children[i as int]@);
                        return false;
                    }
                    i = i + 1;
                }
                assert forall|j: int| 0 <= j < self@->All_0.len() implies (
                #[trigger] self@->All_0[j]).held(snapshot@) by {
                    assert(self@->All_0[j] == children[j]@);
                }
                true
            },
            BindingNode::Any(children) => {
                let n: usize = children.len();
                let mut i: usize = 0;
                proof {
                    BindingNode::lemma_trees(children@);
                }
                while i < n
                    invariant
                        i <= n,
                        n == children.len(),
                        *self == BindingNode::Any(*children),
                        self@ == BindingTree::Any(BindingNode::trees(children@)),
                        forall|j: int| 0 <= j < i ==> !(#[trigger] children[j])@.held(snapshot@),
                    decreases n - i,
                {
                    if children[i].held(snapshot) {
                        proof {
                            BindingNode::lemma_trees(children@);
                        }
                        assert(self@->Any_0[i as int] == children[i as int]@);
                        return true;
                    }
                    i = i + 1;
                }
                assert forall|j: int| 0 <= j < self@->Any_0.len() implies !(
                #[trigger] self@->Any_0[j]).held(snapshot@) by {
                    assert(self@->Any_0[j] == children[j]@);
                }
                false
            },
        }
    }

    /// Whether the binding became held between `previous` and `current`.
    pub fn just_pressed(&self, previous: &InputSnapshot, current: &InputSnapshot) -> (fired: bool)
        ensures
            fired == self@.just_pressed(previous@, current@),
    {
        self.held(current) && !self.held(previous)
    }
}

impl BindingNode {
    /// The binding that asks for one key.
    pub fn keycode(key: KeyCode) -> (node: BindingNode)
        ensures
            node@ == BindingTree::key(key),
    {
        BindingNode::Leaf(AtomicPredicate::KeyHeld(key))
    }

    /// The binding that asks for one gamepad button.
    pub fn pad_button(button: GamepadButton) -> (node: BindingNode)
        ensures
            node@ == BindingTree::button(button),
    {
        BindingNode::Leaf(AtomicPredicate::PadButtonHeld(button))
    }

    /// The binding that asks for one gamepad axis to be pushed to one side.
    pub fn pad_axis(axis: GamepadAxis, dir: GamepadAxisDir) -> (node: BindingNode)
        ensures
            node@ == BindingTree::Leaf(AtomicPredicate::PadAxisHeld(axis, dir)),
    {
        BindingNode::Leaf(AtomicPredicate::PadAxisHeld(axis, dir))
    }

    /// The binding that asks for `first` and `second` at once.
    pub fn both(first: BindingNode, second: BindingNode) -> (node: BindingNode)
        ensures
            node@ == BindingTree::both(first@, second@),
    {
        let mut children: Vec<BindingNode> = Vec::new();
        children.push(first);
        children.push(second);
        proof {
            Self::lemma_trees(children@);
            assert(Self::trees(children@) =~= seq![first@, second@]);
        }
        BindingNode::All(children)
    }

    /// The binding that asks for `first` or `second`.
    pub fn either(first: BindingNode, second: BindingNode) -> (node: BindingNode)
        ensures
            node@ == BindingTree::either(first@, second@),
    {
        let mut children: Vec<BindingNode> = Vec::new();
        children.push(first);
        children.push(second);
        proof {
            Self::lemma_trees(children@);
            assert(Self::trees(children@) =~= seq![first@, second@]);
        }
        BindingNode::Any(children)
    }

    /// The binding that asks for all of `children` at once.
    pub fn all(children: Vec<BindingNode>) -> (node: BindingNode)
        ensures
            node@ == BindingTree::All(Self::trees(children@)),
    {
        BindingNode::All(children)
    }

    /// The binding that asks for any one of `children`.
    pub fn any(children: Vec<BindingNode>) -> (node: BindingNode)
        ensures
            node@ == BindingTree::Any(Self::trees(children@)),
    {
        BindingNode::Any(children)
    }
}

/// Whether `tree` fires on tick `at` of the run of snapshots `ticks`: there
/// is a tick before it, and the binding became held between the two.
pub open spec fn fires_at(tree: BindingTree, ticks: Seq<SnapshotView>, at: int) -> bool {
    0 < at < ticks.len() && tree.just_pressed(ticks[at - 1], ticks[at])
}

/// A binding fires once per run of ticks over which it stays held, and on
/// the first tick of that run: if it is held on every tick from `begin` up
/// to `end`, and was not held on the tick before `begin`, then of these
/// ticks it fires on `begin` and on no other. A run that starts with the
/// very first tick has no tick before it to compare with, and fires on
/// none.
pub proof fn law_fires_once_per_run(
    tree: BindingTree,
    ticks: Seq<SnapshotView>,
    begin: int,
    end: int,
    at: int,
)
    requires
        0 <= begin <= at < end <= ticks.len(),
        forall|t: int| begin <= t < end ==> tree.held(#[trigger] ticks[t]),
        begin > 0 ==> !tree.held(ticks[begin - 1]),
    ensures
        fires_at(tree, ticks, at) <==> (at == begin && begin > 0),
{
    if at > begin {
        assert(tree.held(ticks[at - 1]));
    }
    assert(tree.held(ticks[at]));
}

/// Between two ticks on which a binding fires lies a tick on which it is
/// not held: it has to be released before it can fire again.
pub proof fn law_no_double_firing(
    tree: BindingTree,
    ticks: Seq<SnapshotView>,
    first: int,
    second: int,
)
    requires
        first < second,
        fires_at(tree, ticks, first),
        fires_at(tree, ticks, second),
    ensures
        exists|t: int| first < t < second && !tree.held(#[trigger] ticks[t]),
{
    assert(!tree.held(ticks[second - 1]));
}

/// The conjunction of two leaves, one of which stays held from the
/// previous tick to the current one, fires exactly when the other becomes
/// held. Which of the two was pressed first makes no difference.
pub proof fn law_conjunction_fires_on_last_leaf(
    a: AtomicPredicate,
    b: AtomicPredicate,
    previous: SnapshotView,
    current: SnapshotView,
)
    ensures
        ({
            let both = BindingTree::All(seq![BindingTree::Leaf(a), BindingTree::Leaf(b)]);
            &&& previous.holds(a) && current.holds(a) ==> (both.just_pressed(previous, current)
                <==> current.holds(b) && !previous.holds(b))
            &&& previous.holds(b) && current.holds(b) ==> (both.just_pressed(previous, current)
                <==> current.holds(a) && !previous.holds(a))
        }),
{
    lemma_pair_held(a, b, previous);
    lemma_pair_held(a, b, current);
}

proof fn lemma_pair_held(a: AtomicPredicate, b: AtomicPredicate, snapshot: SnapshotView)
    ensures
        BindingTree::All(seq![BindingTree::Leaf(a), BindingTree::Leaf(b)]).held(snapshot) <==> (
        snapshot.holds(a) && snapshot.holds(b)),
{
    let children = seq![BindingTree::Leaf(a), BindingTree::Leaf(b)];
    reveal_with_fuel(BindingTree::held, 2);
    assert(children[0] == BindingTree::Leaf(a));
    assert(children[1] == BindingTree::Leaf(b));
    assert(children[0].held(snapshot) == snapshot.holds(a));
    assert(children[1].held(snapshot) == snapshot.holds(b));
    let both = BindingTree::All(children);
    if snapshot.holds(a) && snapshot.holds(b) {
        assert forall|i: int| 0 <= i < children.len() implies (#[trigger] children[i]).held(
            snapshot,
        ) by {
            assert(i == 0 || i == 1);
        }
        assert(both.held(snapshot));
    }
    if both.held(snapshot) {
        assert(both->All_0 == children);
        assert(forall|i: int|
            0 <= i < children.len() ==> (#[trigger] children[i]).held(snapshot));
        assert(children[0].held(snapshot));
        assert(children[1].held(snapshot));
    }
}

impl BindingNode {
    fn clone_children(children: &Vec<BindingNode>) -> (copies: Vec<BindingNode>)
        ensures
            Self::trees(copies@) == Self::trees(children@),
        decreases children,
    {
        let n: usize = children.len();
        let mut copies: Vec<BindingNode> = Vec::new();
        let mut i: usize = 0;
        while i < n
            invariant
                i <= n,
                n == children.len(),
                copies@.len() == i,
                forall|j: int| 0 <= j < i ==> (#[trigger] copies@[j])@ == children@[j]@,
            decreases n - i,
        {
            copies.push(children[i].clone());
            i = i + 1;
        }
        proof {
            Self::lemma_trees(copies@);
            Self::lemma_trees(children@);
            assert(Self::trees(copies@) =~= Self::trees(children@));
        }
        copies
    }
}

impl Clone for BindingNode {
    /// A binding that stands for the same tree.
    fn clone(&self) -> (copy: BindingNode)
        ensures
            copy@ == self@,
        decreases self,
    {
        match self {
            BindingNode::Leaf(predicate) => BindingNode::Leaf(*predicate),
            BindingNode::All(children) => BindingNode::All(Self::clone_children(children)),
            BindingNode::Any(children) => BindingNode::Any(Self::clone_children(children)),
        }
    }
}

} // verus!

//! Transient on-screen notifications: a queue of texts, each with the time
//! it was shown and how far it has been pushed away from the base line by
//! the notifications that came after it.

use vstd::prelude::*;

verus! {

/// A notification is removed once it is older than this many milliseconds.
pub const MESSAGE_LIFETIME_MS: i64 = 3000;

/// The distance, in pixels, by which a notification moves away from the
/// base line each time a newer one is shown.
pub const MESSAGE_STEP: u64 = 20;

/// How long a notification takes to move one step, in milliseconds. The
/// motion itself is the renderer's.
pub const MESSAGE_SHIFT_MS: u64 = 100;

/// A request to show a text to the user.
#[derive(Clone, Debug)]
pub struct ShowMessage(pub String);

/// One notification on screen.
#[derive(Clone, Debug)]
pub struct Notification {
    /// What it says.
    pub text: String,
    /// When it was shown, in milliseconds on the host's monotonic clock.
    pub created_ms: i64,
    /// How far it stands from the base line, in pixels.
    pub offset: u64,
}

/// A notification as contracts see it.
pub struct NotificationView {
    pub text: Seq<char>,
    pub created_ms: i64,
    pub offset: u64,
}

impl View for Notification {
    type V = NotificationView;

    open spec fn view(&self) -> NotificationView {
        NotificationView { text: self.text@, created_ms: self.created_ms, offset: self.offset }
    }
}

/// The notifications on screen, oldest first.
#[derive(Clone, Debug)]
pub struct NotificationQueue {
    pub items: Vec<Notification>,
}

impl View for NotificationQueue {
    type V = Seq<NotificationView>;

    open spec fn view(&self) -> Seq<NotificationView> {
        self.items@.map_values(|n: Notification| n@)
    }
}

/// An offset one step further from the base line. The only limit is the
/// largest number the machine can hold.
pub open spec fn stepped_offset(offset: u64) -> u64 {
    if offset + MESSAGE_STEP > u64::MAX {
        u64::MAX
    } else {
        (offset + MESSAGE_STEP) as u64
    }
}

/// A notification moved one step away from the base line.
pub open spec fn pushed_away(n: NotificationView) -> NotificationView {
    NotificationView { text: n.text, created_ms: n.created_ms, offset: stepped_offset(n.offset) }
}

/// A notification fresh on the base line.
pub open spec fn fresh(text: Seq<char>, now_ms: i64) -> NotificationView {
    NotificationView { text, created_ms: now_ms, offset: 0 }
}

/// The queue after `text` is shown at `now_ms`: everything already there
/// moves one step away, and the new notification joins at the base line.
pub open spec fn after_show(
    queue: Seq<NotificationView>,
    text: Seq<char>,
    now_ms: i64,
) -> Seq<NotificationView> {
    queue.map_values(|n: NotificationView| pushed_away(n)).push(fresh(text, now_ms))
}

/// The queue after each of `texts` is shown in turn, all at `now_ms`.
pub open spec fn after_show_all(
    queue: Seq<NotificationView>,
    texts: Seq<Seq<char>>,
    now_ms: i64,
) -> Seq<NotificationView>
    decreases texts.len(),
{
    if texts.len() == 0 {
        queue
    } else {
        after_show(after_show_all(queue, texts.drop_last(), now_ms), texts.last(), now_ms)
    }
}

/// Whether a notification shown at `created_ms` has outlived its time at
/// `now_ms`.
pub open spec fn is_expired(created_ms: i64, now_ms: i64) -> bool {
    now_ms - created_ms > MESSAGE_LIFETIME_MS
}

/// The texts that a batch of requests carries.
pub open spec fn texts_of(messages: Seq<ShowMessage>) -> Seq<Seq<char>> {
    messages.map_values(|m: ShowMessage| m.0@)
}

/// The test that a notification passes while it may stay at `now_ms`.
pub open spec fn still_due(now_ms: i64) -> spec_fn(NotificationView) -> bool {
    |n: NotificationView| !is_expired(n.created_ms, now_ms)
}

/// The places `0, 1, ..` of a queue of `len` notifications.
pub open spec fn places(len: nat) -> Seq<int> {
    Seq::new(len, |k: int| k)
}

/// The test that a place passes when the notification standing there in
/// `queue` has outlived its time at `now_ms`.
pub open spec fn is_expired_at(queue: Seq<NotificationView>, now_ms: i64) -> spec_fn(int) -> bool {
    |k: int| is_expired(queue[k].created_ms, now_ms)
}

fn step_offset(offset: u64) -> (stepped: u64)
    ensures
        stepped == stepped_offset(offset),
{
    if offset > u64::MAX - MESSAGE_STEP {
        u64::MAX
    } else {
        offset + MESSAGE_STEP
    }
}

fn expired(created_ms: i64, now_ms: i64) -> (gone: bool)
    ensures
        gone == is_expired(created_ms, now_ms),
{
    now_ms as i128 - created_ms as i128 > MESSAGE_LIFETIME_MS as i128
}

impl NotificationQueue {
    /// A queue with nothing in it.
    pub fn new() -> (queue: NotificationQueue)
        ensures
            queue@ == Seq::<NotificationView>::empty(),
    {
        let queue = NotificationQueue { items: Vec::new() };
        assert(queue@ =~= Seq::<NotificationView>::empty());
        queue
    }

    /// How many notifications are on screen.
    pub fn len(&self) -> (n: usize)
        ensures
            n == self@.len(),
    {
        self.items.len()
    }

    /// Shows `text` at time `now_ms`.
    pub fn show(&mut self, text: String, now_ms: i64)
        ensures
            final(self)@ == after_show(old(self)@, text@, now_ms),
    {
        let n: usize = self.items.len();
        let mut i: usize = 0;
        while i < n
            invariant
                i <= n,
                n == self.items@.len(),
                n == old(self).items@.len(),
                forall|j: int|
                    0 <= j < i ==> #[trigger] self.items@[j]@ == pushed_away(
                        old(self).items@[j]@,
                    ),
                forall|j: int| i <= j < n ==> #[trigger] self.items@[j] == old(self).items@[j],
            decreases n - i,
        {
            let stepped: u64 = step_offset(self.items[i].offset);
            self.items[i].offset = stepped;
            i = i + 1;
        }
        self.items.push(Notification { text, created_ms: now_ms, offset: 0 });
        assert(self@ =~= after_show(old(self)@, text@, now_ms));
    }
    /// Removes every notification that has outlived its time at `now_ms`
    /// and keeps the others as they are, in their order. Returns the
    /// places, in ascending order, at which the removed ones stood.
    pub fn expire(&mut self, now_ms: i64) -> (removed: Vec<usize>)
        ensures
            final(self)@ == old(self)@.filter(still_due(now_ms)),
            removed@.map_values(|p: usize| p as int) == places(old(self)@.len()).filter(
                is_expired_at(old(self)@, now_ms),
            ),
    {
        let n: usize = self.items.len();
        let mut kept: Vec<Notification> = Vec::new();
        let mut removed: Vec<usize> = Vec::new();
        let mut i: usize = 0;
        proof {
            reveal(Seq::filter);
            assert(self@.take(0) =~= Seq::<NotificationView>::empty());
            assert(places(0) =~= Seq::<int>::empty());
            assert(kept@.map_values(|n: Notification| n@) =~= self@.take(0).filter(
                still_due(now_ms),
            ));
            assert(removed@.map_values(|p: usize| p as int) =~= places(0).filter(
                is_expired_at(self@, now_ms),
            ));
        }
        while i < n
            invariant
                i <= n,
                n == self.items@.len(),
                *self == *old(self),
                kept@.map_values(|n: Notification| n@) == self@.take(i as int).filter(
                    still_due(now_ms),
                ),
                removed@.map_values(|p: usize| p as int) == places(i as nat).filter(
                    is_expired_at(self@, now_ms),
                ),
            decreases n - i,
        {
            proof {
                reveal(Seq::filter);
                assert(self@.take(i + 1).drop_last() =~= self@.take(i as int));
                assert(self@.take(i + 1).last() == self.items@[i as int]@);
                assert(places((i + 1) as nat).drop_last() =~= places(i as nat));
                assert(places((i + 1) as nat).last() == i);
            }
            let ghost kept_before = kept@;
            let ghost removed_before = removed@;
            if expired(self.items[i].created_ms, now_ms) {
                removed.push(i);
                assert(removed@.map_values(|p: usize| p as int) =~= removed_before.map_values(
                    |p: usize| p as int,
                ).push(i as int));
            } else {
                let copy = Notification {
                    text: self.items[i].text.clone(),
                    created_ms: self.items[i].created_ms,
                    offset: self.items[i].offset,
                };
                kept.push(copy);
                assert(kept@.map_values(|n: Notification| n@) =~= kept_before.map_values(
                    |n: Notification| n@,
                ).push(self.items@[i as int]@));
            }
            i = i + 1;
        }
        assert(self@.take(n as int) =~= self@);
        self.items = kept;
        removed
    }
}

/// Shows each of `messages` in turn, all at time `now_ms`.
pub fn message_event_system(queue: &mut NotificationQueue, messages: &Vec<ShowMessage>, now_ms: i64)
    ensures
        final(queue)@ == after_show_all(old(queue)@, texts_of(messages@), now_ms),
{
    let n: usize = messages.len();
    let mut i: usize = 0;
    while i < n
        invariant
            i <= n,
            n == messages@.len(),
            queue@ == after_show_all(old(queue)@, texts_of(messages@).take(i as int), now_ms),
        decreases n - i,
    {
        proof {
            let texts = texts_of(messages@);
            assert(texts.take(i + 1).drop_last() =~= texts.take(i as int));
            assert(texts.take(i + 1).last() == messages@[i as int].0@);
        }
        queue.show(messages[i].0.clone(), now_ms);
        i = i + 1;
    }
    assert(texts_of(messages@).take(n as int) =~= texts_of(messages@));
}

/// Showing a notification moves each one already there exactly one step
/// away from the base line and changes nothing else about it; the new one
/// comes last, on the base line.
pub proof fn law_show_shifts_by_one_step(
    queue: Seq<NotificationView>,
    text: Seq<char>,
    now_ms: i64,
    at: int,
)
    requires
        0 <= at < queue.len(),
    ensures
        after_show(queue, text, now_ms).len() == queue.len() + 1,
        after_show(queue, text, now_ms)[at].text == queue[at].text,
        after_show(queue, text, now_ms)[at].created_ms == queue[at].created_ms,
        queue[at].offset + MESSAGE_STEP <= u64::MAX ==> after_show(queue, text, now_ms)[at].offset
            == queue[at].offset + MESSAGE_STEP,
        after_show(queue, text, now_ms).last() == fresh(text, now_ms),
{
}

/// A notification stays for 3000 ms: shown at `shown_ms`, it is still
/// there after the expiry at `now_ms` exactly when no more than 3000 ms
/// have passed, and then it is still the last of the queue.
pub proof fn law_message_lifetime(
    queue: Seq<NotificationView>,
    text: Seq<char>,
    shown_ms: i64,
    now_ms: i64,
)
    ensures
        ({
            let shown = after_show(queue, text, shown_ms);
            let before = queue.map_values(|n: NotificationView| pushed_away(n));
            let left = shown.filter(still_due(now_ms));
            &&& now_ms - shown_ms <= MESSAGE_LIFETIME_MS ==> left == before.filter(
                still_due(now_ms),
            ).push(fresh(text, shown_ms))
            &&& now_ms - shown_ms > MESSAGE_LIFETIME_MS ==> left == before.filter(still_due(now_ms))
        }),
{
    let before = queue.map_values(|n: NotificationView| pushed_away(n));
    before.lemma_filter_push(fresh(text, shown_ms), still_due(now_ms));
}

} // verus!

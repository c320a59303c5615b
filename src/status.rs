//! The status word shared between posters and the reader election.
//!
//! Value 0: no pending post and no waiting reader. `STATUS_NEEDS_WAKEUP`
//! alone: a thread has committed to becoming the reader and needs a wakeup.
//! Anything else: the set bits are topics with an unflushed post.
use vstd::prelude::*;
use crate::generations::Topic;
use std::sync::atomic::{AtomicU8, Ordering};

verus! {

/// The status word's value type.
pub type StatusBits = u8;

/// A set of topics, one bit per topic.
pub type TopicBitmask = u8;

/// Sentinel status value indicating that a thread is waiting and needs a wakeup.
/// It is an error for this bit to be set together with any topic bit.
pub const STATUS_NEEDS_WAKEUP: StatusBits = 128;

/// The status value with no pending post and no waiting reader.
pub const STATUS_IDLE: StatusBits = 0;

/// The bit of a topic in the status word.
pub open spec fn topic_bit(t: Topic) -> TopicBitmask {
    match t {
        Topic::sighupint => 1,
        Topic::sigchld => 2,
        Topic::internal_exit => 4,
    }
}

/// The statuses the protocol can produce: idle, the wakeup sentinel alone, or
/// a set of topic bits without the sentinel.
pub open spec fn status_well_formed(s: StatusBits) -> bool {
    s == STATUS_NEEDS_WAKEUP || s < 8
}

/// Whether the status holds posts that a flush must apply to the ledger.
pub open spec fn status_has_pending(s: StatusBits) -> bool {
    s != STATUS_IDLE && s != STATUS_NEEDS_WAKEUP
}

/// The status after posting `t`: the wakeup sentinel cleared, the topic's bit set.
pub open spec fn posted_status(old: StatusBits, t: Topic) -> StatusBits {
    (old & !STATUS_NEEDS_WAKEUP) | topic_bit(t)
}

/// What a poster does once its compare-and-swap has replaced `old`.
#[derive(Copy, Clone, Debug, PartialEq, Eq, Structural)]
pub enum PostAction {
    /// The topic already had a pending post: nothing more to do.
    Coalesce,
    /// A reader committed to waiting: signal the notifier exactly once.
    WakeReader,
    /// Nobody waits: the pending bit stays for the next consumer.
    LeavePending,
}

/// The action owed after a post to `t` replaced the status `old`.
pub open spec fn post_action_of(old: StatusBits, t: Topic) -> PostAction {
    if old & topic_bit(t) != 0 {
        PostAction::Coalesce
    } else if old & STATUS_NEEDS_WAKEUP != 0 {
        PostAction::WakeReader
    } else {
        PostAction::LeavePending
    }
}

/// The bit of `t` in the status word.
pub fn topic_to_bit(t: Topic) -> (r: TopicBitmask)
    ensures
        r == topic_bit(t),
{
    match t {
        Topic::sighupint => 1,
        Topic::sigchld => 2,
        Topic::internal_exit => 4,
    }
}

/// Whether `s` is a status the protocol can produce.
pub fn status_is_well_formed(s: StatusBits) -> (r: bool)
    ensures
        r == status_well_formed(s),
{
    s == STATUS_NEEDS_WAKEUP || s < 8
}

/// Whether the status holds posts that a flush must apply to the ledger.
pub fn has_pending_posts(s: StatusBits) -> (r: bool)
    ensures
        r == status_has_pending(s),
{
    s != STATUS_IDLE && s != STATUS_NEEDS_WAKEUP
}

/// The value a poster of `t` swaps in for the status `old`.
pub fn post_transition(old: StatusBits, t: Topic) -> (r: StatusBits)
    ensures
        r == posted_status(old, t),
{
    let mut new_status = old;
    new_status &= !STATUS_NEEDS_WAKEUP;
    new_status |= topic_to_bit(t);
    new_status
}

/// What a poster of `t` must do after replacing the status `old`.
pub fn post_action(old: StatusBits, t: Topic) -> (r: PostAction)
    ensures
        r == post_action_of(old, t),
{
    let bit = topic_to_bit(t);
    if old & bit != 0 {
        PostAction::Coalesce
    } else if old & STATUS_NEEDS_WAKEUP != 0 {
        PostAction::WakeReader
    } else {
        PostAction::LeavePending
    }
}

/// The outcome of one attempt to flush the status word.
#[derive(Copy, Clone, Debug, PartialEq, Eq, Structural)]
pub enum FlushAttempt {
    /// No post is pending (the status was idle or the wakeup sentinel).
    NothingPending,
    /// The status changed under us: try again.
    Retry,
    /// These topic bits were pending and the status is now idle.
    Taken(TopicBitmask),
}

/// The atomic status word. Posting to it never blocks or allocates, so it
/// may be done from a signal handler.
pub struct StatusWord {
    word: AtomicU8,
}

impl StatusWord {
    /// A status word holding the idle value.
    pub fn new() -> (r: StatusWord) {
        StatusWord { word: AtomicU8::new(STATUS_IDLE) }
    }

    /// The current value.
    pub fn load(&self) -> StatusBits {
        self.word.load(Ordering::Relaxed)
    }

    /// One attempt to post `t`: read the status and swap in the posted value.
    /// On success returns the status it replaced and the action now owed.
    pub fn try_post(&self, t: Topic) -> (r: Option<(StatusBits, PostAction)>)
        ensures
            r matches Some((old, action)) ==> action == post_action_of(old, t),
    {
        let old = self.word.load(Ordering::Relaxed);
        let new_status = post_transition(old, t);
        match self.word.compare_exchange_weak(old, new_status, Ordering::Relaxed, Ordering::Relaxed) {
            Ok(_) => Some((old, post_action(old, t))),
            Err(_) => None,
        }
    }

    /// One attempt to take the pending posts, swapping in the idle value.
    pub fn try_flush(&self) -> (r: FlushAttempt)
        ensures
            r matches FlushAttempt::Taken(bits) ==> status_has_pending(bits),
    {
        let bits = self.word.load(Ordering::Relaxed);
        if !has_pending_posts(bits) {
            return FlushAttempt::NothingPending;
        }
        match self.word.compare_exchange_weak(bits, STATUS_IDLE, Ordering::Relaxed, Ordering::Relaxed) {
            Ok(_) => FlushAttempt::Taken(bits),
            Err(_) => FlushAttempt::Retry,
        }
    }

    /// Try to commit to becoming the reader: swap the wakeup sentinel into
    /// an idle status. Fails when any post is pending or a reader is committed.
    pub fn try_claim(&self) -> (r: bool) {
        self.word.compare_exchange(STATUS_IDLE, STATUS_NEEDS_WAKEUP, Ordering::SeqCst, Ordering::SeqCst)
            .is_ok()
    }
}

impl Default for StatusWord {
    fn default() -> (r: StatusWord) {
        StatusWord::new()
    }
}

} // verus!

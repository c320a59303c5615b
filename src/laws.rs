//! Laws of the protocol, stated over the transitions and proved.
use vstd::prelude::*;
use crate::generations::{GenerationsList, Topic, INVALID_GENERATION};
use crate::ledger::{advance_fits, advanced, behind, caught_up, not_ahead};
use crate::status::{
    post_action_of, posted_status, status_has_pending, status_well_formed, topic_bit, PostAction,
    StatusBits, STATUS_IDLE, STATUS_NEEDS_WAKEUP,
};

verus! {

/// The status after `n` consecutive posts to `t`, starting from `s`, with no
/// flush in between.
pub open spec fn posted_n_times(s: StatusBits, t: Topic, n: nat) -> StatusBits
    decreases n,
{
    if n == 0 {
        s
    } else {
        posted_status(posted_n_times(s, t, (n - 1) as nat), t)
    }
}

proof fn lemma_post_bits(s: StatusBits, b: u8)
    requires
        b == 1 || b == 2 || b == 4,
    ensures
        ((s & !STATUS_NEEDS_WAKEUP) | b) & b != 0,
        ((s & !STATUS_NEEDS_WAKEUP) | b) & STATUS_NEEDS_WAKEUP == 0,
        ((s & !STATUS_NEEDS_WAKEUP) | b) != 0,
        ((s & !STATUS_NEEDS_WAKEUP) | b) != STATUS_NEEDS_WAKEUP,
        (s < 8 || s == STATUS_NEEDS_WAKEUP) ==> ((s & !STATUS_NEEDS_WAKEUP) | b) < 8,
        s & STATUS_NEEDS_WAKEUP == 0 ==> (s & !STATUS_NEEDS_WAKEUP) == s,
        STATUS_NEEDS_WAKEUP & b == 0,
        s < 8 ==> s & STATUS_NEEDS_WAKEUP == 0,
        s & STATUS_NEEDS_WAKEUP == 0 ==> s != STATUS_NEEDS_WAKEUP,
        STATUS_NEEDS_WAKEUP & STATUS_NEEDS_WAKEUP != 0,
{
    assert(((s & !128u8) | b) & b != 0) by (bit_vector)
        requires b == 1u8 || b == 2u8 || b == 4u8;
    assert(((s & !128u8) | b) & 128u8 == 0) by (bit_vector)
        requires b == 1u8 || b == 2u8 || b == 4u8;
    assert(((s & !128u8) | b) != 0) by (bit_vector)
        requires b == 1u8 || b == 2u8 || b == 4u8;
    assert(((s & !128u8) | b) != 128u8) by (bit_vector)
        requires b == 1u8 || b == 2u8 || b == 4u8;
    assert((s < 8u8 || s == 128u8) ==> ((s & !128u8) | b) < 8u8) by (bit_vector)
        requires b == 1u8 || b == 2u8 || b == 4u8;
    assert(s & 128u8 == 0 ==> (s & !128u8) == s) by (bit_vector);
    assert(128u8 & b == 0) by (bit_vector)
        requires b == 1u8 || b == 2u8 || b == 4u8;
    assert(s < 8u8 ==> s & 128u8 == 0) by (bit_vector);
    assert(s & 128u8 == 0 ==> s != 128u8) by (bit_vector);
    assert(128u8 & 128u8 != 0) by (bit_vector);
}

/// Every transition of the status word keeps it well formed: a post from a
/// well-formed status, the flush that swaps in the idle value, and the claim
/// that swaps the wakeup sentinel into an idle status. So the wakeup sentinel
/// and a topic bit are never set together.
pub proof fn lemma_status_stays_well_formed(s: StatusBits, t: Topic)
    requires
        status_well_formed(s),
    ensures
        status_well_formed(posted_status(s, t)),
        posted_status(s, t) & STATUS_NEEDS_WAKEUP == 0,
        status_well_formed(STATUS_IDLE),
        status_well_formed(STATUS_NEEDS_WAKEUP),
{
    lemma_post_bits(s, topic_bit(t));
}

proof fn lemma_posted_n_times_pending(s: StatusBits, t: Topic, n: nat)
    requires
        status_well_formed(s),
        n >= 1,
    ensures
        status_well_formed(posted_n_times(s, t, n)),
        posted_n_times(s, t, n) & topic_bit(t) != 0,
        posted_n_times(s, t, n) & STATUS_NEEDS_WAKEUP == 0,
        status_has_pending(posted_n_times(s, t, n)),
    decreases n,
{
    let prev = posted_n_times(s, t, (n - 1) as nat);
    if n > 1 {
        lemma_posted_n_times_pending(s, t, (n - 1) as nat);
    }
    assert(status_well_formed(prev));
    lemma_post_bits(prev, topic_bit(t));
}

/// Coalescing: `n` consecutive posts to `t` with no flush in between leave
/// `t` pending, every post after the first coalesces, and the following
/// flush advances `t` by exactly one generation (between 1 and `n`), which a
/// consumer that had seen the old generation reports as a change.
pub proof fn lemma_coalescing(s: StatusBits, t: Topic, n: nat, g: GenerationsList, gens: GenerationsList)
    requires
        status_well_formed(s),
        n >= 1,
        advance_fits(g, posted_n_times(s, t, n)),
        gens.valid(t),
        gens.value(t) == g.value(t),
    ensures
        status_has_pending(posted_n_times(s, t, n)),
        forall|k: nat| 1 <= k < n ==> post_action_of(#[trigger] posted_n_times(s, t, k), t)
            == PostAction::Coalesce,
        advanced(g, posted_n_times(s, t, n)).value(t) == g.value(t) + 1,
        1 <= advanced(g, posted_n_times(s, t, n)).value(t) - g.value(t) <= n,
        behind(gens, advanced(g, posted_n_times(s, t, n))),
{
    lemma_posted_n_times_pending(s, t, n);
    assert forall|k: nat| 1 <= k < n implies post_action_of(#[trigger] posted_n_times(s, t, k), t)
        == PostAction::Coalesce by {
        lemma_posted_n_times_pending(s, t, k);
    }
    let f = posted_n_times(s, t, n);
    assert(g.value(t) < INVALID_GENERATION);
    assert(behind(gens, advanced(g, f))) by {
        assert(gens.valid(t) && gens.value(t) < advanced(g, f).value(t));
    }
}

/// A consumer reports a change once: after catching up to a snapshot, it is
/// no longer behind it, and catching up again changes nothing.
pub proof fn lemma_check_reports_once(gens: GenerationsList, current: GenerationsList)
    requires
        not_ahead(gens, current),
    ensures
        not_ahead(caught_up(gens, current), current),
        !behind(caught_up(gens, current), current),
        caught_up(caught_up(gens, current), current) == caught_up(gens, current),
{
    let c = caught_up(gens, current);
    assert forall|t: Topic| #[trigger] c.valid(t) implies c.value(t) <= current.value(t) by {
        if gens.valid(t) {
        } else {
            assert(c.value(t) == gens.value(t));
        }
    }
    assert forall|t: Topic| !(#[trigger] c.valid(t) && c.value(t) < current.value(t)) by {
        if c.valid(t) && !gens.valid(t) {
            assert(c.value(t) == gens.value(t));
        }
    }
}

/// Monotonicity of the ledger: a flush never lowers a generation.
pub proof fn lemma_flush_monotonic(g: GenerationsList, bits: StatusBits)
    requires
        advance_fits(g, bits),
    ensures
        forall|t: Topic| #[trigger] advanced(g, bits).value(t) >= g.value(t),
{
}

/// Monotonicity of a consumer's snapshot: catching up to published
/// generations never lowers a generation of interest.
pub proof fn lemma_catch_up_monotonic(gens: GenerationsList, current: GenerationsList)
    requires
        not_ahead(gens, current),
    ensures
        forall|t: Topic| #[trigger] caught_up(gens, current).value(t) >= gens.value(t),
{
    assert forall|t: Topic| #[trigger] caught_up(gens, current).value(t) >= gens.value(t) by {
        if gens.valid(t) {
        }
    }
}

/// Fast path: when the published generations equal `gens` on every topic of
/// interest, a consumer sees no change and its list stays as it was.
pub proof fn lemma_fast_path_idempotent(gens: GenerationsList, current: GenerationsList)
    requires
        forall|t: Topic| #[trigger] gens.valid(t) ==> gens.value(t) == current.value(t),
    ensures
        not_ahead(gens, current),
        !behind(gens, current),
        caught_up(gens, current) == gens,
{
}

/// A list with the sentinel on every topic holds no topic of interest, so a
/// check on it stops before it reads the ledger.
pub proof fn lemma_invalid_list_short_circuits(g: GenerationsList)
    requires
        forall|t: Topic| #[trigger] g.value(t) == INVALID_GENERATION,
    ensures
        !g.some_valid(),
{
}

/// Delivery to a committed reader: once a thread has swapped the wakeup
/// sentinel in, the next post of any topic owes it a wakeup and leaves that
/// topic pending for the flush that follows; and a status with pending posts
/// is not idle, so no thread can commit to waiting over them.
pub proof fn lemma_committed_reader_is_woken(t: Topic, s: StatusBits)
    ensures
        post_action_of(STATUS_NEEDS_WAKEUP, t) == PostAction::WakeReader,
        status_has_pending(posted_status(STATUS_NEEDS_WAKEUP, t)),
        posted_status(STATUS_NEEDS_WAKEUP, t) & topic_bit(t) != 0,
        status_has_pending(s) ==> s != STATUS_IDLE,
{
    lemma_post_bits(STATUS_NEEDS_WAKEUP, topic_bit(t));
    assert(STATUS_NEEDS_WAKEUP & topic_bit(t) == 0);
}

/// The wakeup sentinel is a single token: it is swapped in only over the
/// idle status, a post that finds it clears it, and a post from a status
/// without it never signals the notifier. So each committed reader is
/// signalled at most once, and only a committed reader is.
pub proof fn lemma_wakeup_token_exclusive(s: StatusBits, t: Topic)
    requires
        status_well_formed(s),
        s & STATUS_NEEDS_WAKEUP == 0,
    ensures
        post_action_of(s, t) != PostAction::WakeReader,
        posted_status(s, t) & STATUS_NEEDS_WAKEUP == 0,
        posted_status(STATUS_NEEDS_WAKEUP, t) & STATUS_NEEDS_WAKEUP == 0,
        s != STATUS_NEEDS_WAKEUP,
{
    lemma_post_bits(s, topic_bit(t));
    lemma_post_bits(STATUS_NEEDS_WAKEUP, topic_bit(t));
}

} // verus!

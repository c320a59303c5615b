use topic_monitor::ledger::check_round;
use topic_monitor::status::{
    has_pending_posts, post_action, post_transition, status_is_well_formed, topic_to_bit,
};
use topic_monitor::{
    all_topics, ElectionStep, FlushAttempt, GenerationsList, Ledger, PostAction, StatusWord,
    Topic, INVALID_GENERATION, STATUS_IDLE, STATUS_NEEDS_WAKEUP,
};

fn list(a: u64, b: u64, c: u64) -> GenerationsList {
    GenerationsList { sighupint: a, sigchld: b, internal_exit: c }
}

fn post(word: &StatusWord, t: Topic) -> PostAction {
    loop {
        if let Some((_, action)) = word.try_post(t) {
            return action;
        }
    }
}

fn flush(word: &StatusWord, ledger: &mut Ledger) -> GenerationsList {
    loop {
        match word.try_flush() {
            FlushAttempt::NothingPending => return ledger.current,
            FlushAttempt::Retry => continue,
            FlushAttempt::Taken(bits) => {
                assert_eq!(bits & STATUS_NEEDS_WAKEUP, 0);
                assert!(ledger.can_advance(bits));
                return ledger.apply_pending(bits);
            }
        }
    }
}

#[test]
fn topic_bits_are_distinct_powers_of_two() {
    assert_eq!(topic_to_bit(Topic::sighupint), 1);
    assert_eq!(topic_to_bit(Topic::sigchld), 2);
    assert_eq!(topic_to_bit(Topic::internal_exit), 4);
}

#[test]
fn post_transition_clears_sentinel_and_sets_bit() {
    assert_eq!(post_transition(STATUS_IDLE, Topic::sigchld), 2);
    assert_eq!(post_transition(STATUS_NEEDS_WAKEUP, Topic::internal_exit), 4);
    assert_eq!(post_transition(1, Topic::sigchld), 3);
    assert_eq!(post_transition(2, Topic::sigchld), 2);
}

#[test]
fn post_action_covers_each_case() {
    assert_eq!(post_action(2, Topic::sigchld), PostAction::Coalesce);
    assert_eq!(post_action(STATUS_NEEDS_WAKEUP, Topic::sigchld), PostAction::WakeReader);
    assert_eq!(post_action(STATUS_IDLE, Topic::sigchld), PostAction::LeavePending);
    assert_eq!(post_action(1, Topic::sigchld), PostAction::LeavePending);
}

#[test]
fn pending_and_well_formed_statuses() {
    assert!(!has_pending_posts(STATUS_IDLE));
    assert!(!has_pending_posts(STATUS_NEEDS_WAKEUP));
    assert!(has_pending_posts(5));
    assert!(status_is_well_formed(STATUS_IDLE));
    assert!(status_is_well_formed(STATUS_NEEDS_WAKEUP));
    assert!(status_is_well_formed(7));
    assert!(!status_is_well_formed(STATUS_NEEDS_WAKEUP | 2));
}

#[test]
fn status_word_post_flush_claim_cycle() {
    let word = StatusWord::new();
    assert_eq!(word.load(), STATUS_IDLE);
    assert_eq!(post(&word, Topic::sigchld), PostAction::LeavePending);
    assert_eq!(word.load(), 2);
    assert!(!word.try_claim());
    assert_eq!(post(&word, Topic::sigchld), PostAction::Coalesce);
    assert_eq!(word.try_flush(), FlushAttempt::Taken(2));
    assert_eq!(word.load(), STATUS_IDLE);
    assert_eq!(word.try_flush(), FlushAttempt::NothingPending);
    assert!(word.try_claim());
    assert_eq!(word.load(), STATUS_NEEDS_WAKEUP);
    assert!(!word.try_claim());
    assert_eq!(word.try_flush(), FlushAttempt::NothingPending);
    assert_eq!(post(&word, Topic::internal_exit), PostAction::WakeReader);
    assert_eq!(word.load(), 4);
}

#[test]
fn apply_pending_advances_flagged_topics_by_one() {
    let mut ledger = Ledger::new();
    assert_eq!(ledger.apply_pending(3), list(1, 1, 0));
    assert_eq!(ledger.apply_pending(4), list(1, 1, 1));
    assert_eq!(ledger.current, list(1, 1, 1));
    assert!(!ledger.has_reader);
}

#[test]
fn can_advance_refuses_the_sentinel() {
    let mut ledger = Ledger::new();
    ledger.current.set(Topic::sigchld, INVALID_GENERATION);
    assert!(!ledger.can_advance(2));
    assert!(ledger.can_advance(5));
}

#[test]
fn election_steps() {
    let mut ledger = Ledger::default();
    let seen = list(0, 0, 0);
    assert_eq!(ledger.election_step(&seen, &list(0, 1, 0)), ElectionStep::Changed);
    assert_eq!(ledger.election_step(&seen, &seen), ElectionStep::TryClaim);
    ledger.become_reader();
    assert!(ledger.has_reader);
    assert_eq!(ledger.election_step(&seen, &seen), ElectionStep::WaitForReader);
    assert_eq!(ledger.stop_reading(), seen);
    assert!(!ledger.has_reader);
}

#[test]
fn catch_up_updates_only_topics_of_interest() {
    let mut gens = list(0, INVALID_GENERATION, 2);
    let current = list(3, 5, 2);
    assert!(gens.is_not_ahead_of(&current));
    assert!(gens.catch_up_to(&current));
    assert_eq!(gens, list(3, INVALID_GENERATION, 2));
}

#[test]
fn catch_up_on_unchanged_ledger_is_a_no_op() {
    let mut gens = list(4, 1, INVALID_GENERATION);
    let current = list(4, 1, 9);
    assert!(!gens.catch_up_to(&current));
    assert_eq!(gens, list(4, 1, INVALID_GENERATION));
    assert!(!gens.catch_up_to(&current));
    assert_eq!(gens, list(4, 1, INVALID_GENERATION));
}

#[test]
fn gens_ahead_of_published_is_detected() {
    let gens = list(0, 6, INVALID_GENERATION);
    assert!(!gens.is_not_ahead_of(&list(0, 5, 0)));
    assert!(GenerationsList::invalid().is_not_ahead_of(&list(0, 0, 0)));
}

#[test]
fn invalid_list_has_nothing_to_check() {
    assert!(!GenerationsList::invalid().any_valid());
}

#[test]
fn ledger_generations_never_decrease() {
    let word = StatusWord::new();
    let mut ledger = Ledger::new();
    let mut last = ledger.current;
    let topics = all_topics();
    for i in 0..50usize {
        post(&word, topics[i % 3]);
        if i % 4 == 0 {
            post(&word, topics[(i + 1) % 3]);
        }
        let now = flush(&word, &mut ledger);
        for t in all_topics() {
            assert!(now.get(t) >= last.get(t));
        }
        last = now;
    }
}

#[test]
fn coalesced_posts_advance_once_and_report_once() {
    let word = StatusWord::new();
    let mut ledger = Ledger::new();
    let mut gens = ledger.current;
    assert_eq!(post(&word, Topic::sigchld), PostAction::LeavePending);
    for _ in 1..5 {
        assert_eq!(post(&word, Topic::sigchld), PostAction::Coalesce);
    }
    let current = flush(&word, &mut ledger);
    assert_eq!(current.get(Topic::sigchld), 1);
    assert!(gens.catch_up_to(&current));
    let again = flush(&word, &mut ledger);
    assert!(!gens.catch_up_to(&again));
    assert_eq!(gens.get(Topic::sigchld), 1);
}

#[test]
fn status_word_stays_well_formed_under_mixed_operations() {
    let word = StatusWord::new();
    let mut ledger = Ledger::new();
    let topics = all_topics();
    let mut seed: u32 = 12345;
    for _ in 0..500 {
        seed = seed.wrapping_mul(1103515245).wrapping_add(12345);
        match (seed >> 16) % 4 {
            0 | 1 => {
                post(&word, topics[((seed >> 8) % 3) as usize]);
            }
            2 => {
                flush(&word, &mut ledger);
            }
            _ => {
                word.try_claim();
            }
        }
        assert!(status_is_well_formed(word.load()));
    }
}

#[test]
fn committed_reader_gets_exactly_one_wakeup() {
    let word = StatusWord::new();
    assert!(word.try_claim());
    assert_eq!(post(&word, Topic::sighupint), PostAction::WakeReader);
    assert_eq!(post(&word, Topic::sigchld), PostAction::LeavePending);
    assert_eq!(post(&word, Topic::sighupint), PostAction::Coalesce);
}

#[test]
fn blocked_checker_sees_one_increment_after_two_posts() {
    let word = StatusWord::new();
    let mut ledger = Ledger::new();
    let mut gens = GenerationsList::invalid();
    gens.set(Topic::sigchld, 0);
    // The checker finds nothing new and commits to being the reader.
    let current = flush(&word, &mut ledger);
    assert!(!gens.catch_up_to(&current));
    let again = flush(&word, &mut ledger);
    assert_eq!(ledger.election_step(&current, &again), ElectionStep::TryClaim);
    assert!(word.try_claim());
    ledger.become_reader();
    // Two posts with no consumer in between: one wakeup, one coalesced.
    assert_eq!(post(&word, Topic::sigchld), PostAction::WakeReader);
    assert_eq!(post(&word, Topic::sigchld), PostAction::Coalesce);
    // The woken reader relays and re-checks.
    let _ = ledger.stop_reading();
    let fresh = flush(&word, &mut ledger);
    assert!(gens.is_not_ahead_of(&fresh));
    assert!(gens.catch_up_to(&fresh));
    assert_eq!(gens.get(Topic::sigchld), 1);
    assert!(!gens.is_valid(Topic::sighupint));
    assert!(!gens.is_valid(Topic::internal_exit));
}

#[test]
fn check_round_finishes_or_asks_to_wait() {
    let current = list(2, 0, 0);
    let mut gens = list(2, 0, INVALID_GENERATION);
    assert_eq!(check_round(&mut gens, &current, false), Some(false));
    assert_eq!(check_round(&mut gens, &current, true), None);
    assert_eq!(gens, list(2, 0, INVALID_GENERATION));
    let newer = list(2, 1, 0);
    assert_eq!(check_round(&mut gens, &newer, true), Some(true));
    assert_eq!(gens, list(2, 1, INVALID_GENERATION));
}

//! The monitor's lock-protected state: the published generations and the
//! reader flag, with the decisions the consumer side takes on them.
use vstd::prelude::*;
use crate::generations::{all_topics, Generation, GenerationsList, Topic, INVALID_GENERATION};
use crate::status::{topic_bit, topic_to_bit, TopicBitmask, STATUS_NEEDS_WAKEUP};

verus! {

/// The generation of `t` after flushing the topic set `bits`: one more if
/// the topic's bit is set, however many posts it stands for.
pub open spec fn advanced_value(g: GenerationsList, bits: TopicBitmask, t: Topic) -> Generation {
    if bits & topic_bit(t) != 0 {
        (g.value(t) + 1) as Generation
    } else {
        g.value(t)
    }
}

/// The generations after flushing the topic set `bits`.
pub open spec fn advanced(g: GenerationsList, bits: TopicBitmask) -> GenerationsList {
    GenerationsList {
        sighupint: advanced_value(g, bits, Topic::sighupint),
        sigchld: advanced_value(g, bits, Topic::sigchld),
        internal_exit: advanced_value(g, bits, Topic::internal_exit),
    }
}

/// Every topic flagged in `bits` can take one more generation without overflow.
pub open spec fn advance_fits(g: GenerationsList, bits: TopicBitmask) -> bool {
    forall|t: Topic| bits & topic_bit(t) != 0 ==> #[trigger] g.value(t) < INVALID_GENERATION
}

/// No topic of interest in `gens` is newer than in `current`.
pub open spec fn not_ahead(gens: GenerationsList, current: GenerationsList) -> bool {
    forall|t: Topic| #[trigger] gens.valid(t) ==> gens.value(t) <= current.value(t)
}

/// Some topic of interest in `gens` is older than in `current`.
pub open spec fn behind(gens: GenerationsList, current: GenerationsList) -> bool {
    exists|t: Topic| #[trigger] gens.valid(t) && gens.value(t) < current.value(t)
}

/// `gens` with each topic of interest taken from `current`, the others kept.
pub open spec fn caught_up(gens: GenerationsList, current: GenerationsList) -> GenerationsList {
    GenerationsList {
        sighupint: if gens.valid(Topic::sighupint) { current.sighupint } else { gens.sighupint },
        sigchld: if gens.valid(Topic::sigchld) { current.sigchld } else { gens.sigchld },
        internal_exit: if gens.valid(Topic::internal_exit) {
            current.internal_exit
        } else {
            gens.internal_exit
        },
    }
}

impl GenerationsList {
    /// Whether no topic of interest here is newer than in `current`.
    pub fn is_not_ahead_of(&self, current: &GenerationsList) -> (r: bool)
        ensures
            r == not_ahead(*self, *current),
    {
        let topics = all_topics();
        let mut i: usize = 0;
        while i < 3
            invariant
                0 <= i <= 3,
                topics@ == seq![Topic::sighupint, Topic::sigchld, Topic::internal_exit],
                forall|j: int|
                    0 <= j < i && self.valid(#[trigger] topics@[j]) ==> self.value(topics@[j])
                        <= current.value(topics@[j]),
            decreases 3 - i,
        {
            let t = topics[i];
            if self.is_valid(t) && self.get(t) > current.get(t) {
                proof {
                    assert(!not_ahead(*self, *current)) by {
                        assert(self.valid(t));
                    }
                }
                return false;
            }
            i = i + 1;
        }
        proof {
            assert forall|t: Topic| #[trigger] self.valid(t) implies self.value(t) <= current.value(t) by {
                assert(topics@[t.index() as int] == t);
            }
        }
        true
    }

    /// Bring each topic of interest up to `current`; report whether any of
    /// them was older.
    pub fn catch_up_to(&mut self, current: &GenerationsList) -> (changed: bool)
        requires
            not_ahead(*old(self), *current),
        ensures
            *final(self) == caught_up(*old(self), *current),
            changed == behind(*old(self), *current),
    {
        let ghost start = *self;
        let topics = all_topics();
        let mut changed = false;
        let mut i: usize = 0;
        while i < 3
            invariant
                0 <= i <= 3,
                topics@ == seq![Topic::sighupint, Topic::sigchld, Topic::internal_exit],
                not_ahead(start, *current),
                forall|j: int| 0 <= j < i ==> {
                    let t = #[trigger] topics@[j];
                    self.value(t) == (if start.valid(t) { current.value(t) } else { start.value(t) })
                },
                forall|j: int| i <= j < 3 ==> {
                    let t = #[trigger] topics@[j];
                    self.value(t) == start.value(t)
                },
                changed == exists|j: int|
                    0 <= j < i && start.valid(#[trigger] topics@[j]) && start.value(topics@[j])
                        < current.value(topics@[j]),
            decreases 3 - i,
        {
            let t = topics[i];
            if self.is_valid(t) {
                if self.get(t) < current.get(t) {
                    self.set(t, current.get(t));
                    changed = true;
                }
            }
            i = i + 1;
        }
        proof {
            assert(topics@[0].index() == 0 && topics@[1].index() == 1 && topics@[2].index() == 2);
            if behind(start, *current) {
                let t = choose|t: Topic| #[trigger] start.valid(t) && start.value(t) < current.value(t);
                assert(topics@[t.index() as int] == t);
            }
        }
        changed
    }
}

/// One round of a check against the published generations `current`:
/// catch `gens` up, then finish with whether it changed unless the caller
/// waits and nothing changed, in which case `None` asks for a wait.
pub fn check_round(gens: &mut GenerationsList, current: &GenerationsList, wait: bool) -> (r: Option<bool>)
    requires
        not_ahead(*old(gens), *current),
    ensures
        *final(gens) == caught_up(*old(gens), *current),
        r == if !wait || behind(*old(gens), *current) {
            Some(behind(*old(gens), *current))
        } else {
            None
        },
{
    let changed = gens.catch_up_to(current);
    if !wait || changed {
        Some(changed)
    } else {
        None
    }
}

/// What a consumer does next while it waits for `gens` to change.
#[derive(Copy, Clone, Debug, PartialEq, Eq, Structural)]
pub enum ElectionStep {
    /// The published generations differ: take them and stop waiting.
    Changed,
    /// Another thread is the reader: wait on the condition variable.
    WaitForReader,
    /// Nobody reads: try to swap the wakeup sentinel into an idle status.
    TryClaim,
}

/// The lock-protected state of a topic monitor.
#[derive(Copy, Clone, Debug)]
pub struct Ledger {
    /// The published generations.
    pub current: GenerationsList,
    /// Whether a thread currently owns the duty to block on the notifier.
    pub has_reader: bool,
}

impl Ledger {
    /// The step owed while waiting for `gens` to change, given the
    /// freshly flushed generations `current`.
    pub open spec fn election_of(self, gens: GenerationsList, current: GenerationsList) -> ElectionStep {
        if gens != current {
            ElectionStep::Changed
        } else if self.has_reader {
            ElectionStep::WaitForReader
        } else {
            ElectionStep::TryClaim
        }
    }

    /// A ledger at generation zero for every topic, with no reader.
    pub fn new() -> (r: Ledger)
        ensures
            forall|t: Topic| #[trigger] r.current.value(t) == 0,
            !r.has_reader,
    {
        Ledger { current: GenerationsList::new(), has_reader: false }
    }

    /// Whether every topic in `bits` can take one more generation.
    pub fn can_advance(&self, bits: TopicBitmask) -> (r: bool)
        ensures
            r == advance_fits(self.current, bits),
    {
        let topics = all_topics();
        let mut i: usize = 0;
        while i < 3
            invariant
                0 <= i <= 3,
                topics@ == seq![Topic::sighupint, Topic::sigchld, Topic::internal_exit],
                forall|j: int|
                    0 <= j < i && bits & topic_bit(#[trigger] topics@[j]) != 0
                        ==> self.current.value(topics@[j]) < INVALID_GENERATION,
            decreases 3 - i,
        {
            let t = topics[i];
            if bits & topic_to_bit(t) != 0 && self.current.get(t) == INVALID_GENERATION {
                return false;
            }
            i = i + 1;
        }
        proof {
            assert forall|t: Topic| bits & topic_bit(t) != 0 implies #[trigger] self.current.value(t)
                < INVALID_GENERATION by {
                assert(topics@[t.index() as int] == t);
            }
        }
        true
    }

    /// Apply the flushed topic set `bits`: each flagged topic advances by
    /// exactly one generation. Returns the new published generations.
    pub fn apply_pending(&mut self, bits: TopicBitmask) -> (r: GenerationsList)
        requires
            bits & STATUS_NEEDS_WAKEUP == 0,
            advance_fits(old(self).current, bits),
        ensures
            final(self).current == advanced(old(self).current, bits),
            final(self).has_reader == old(self).has_reader,
            r == final(self).current,
    {
        let ghost start = self.current;
        let topics = all_topics();
        let mut i: usize = 0;
        while i < 3
            invariant
                0 <= i <= 3,
                topics@ == seq![Topic::sighupint, Topic::sigchld, Topic::internal_exit],
                advance_fits(start, bits),
                self.has_reader == old(self).has_reader,
                start == old(self).current,
                forall|j: int| 0 <= j < i ==> {
                    let t = #[trigger] topics@[j];
                    self.current.value(t) == advanced_value(start, bits, t)
                },
                forall|j: int| i <= j < 3 ==> {
                    let t = #[trigger] topics@[j];
                    self.current.value(t) == start.value(t)
                },
            decreases 3 - i,
        {
            let t = topics[i];
            if bits & topic_to_bit(t) != 0 {
                let g = self.current.get(t);
                self.current.set(t, g + 1);
            }
            i = i + 1;
        }
        proof {
            assert(topics@[0] == Topic::sighupint);
            assert(topics@[1] == Topic::sigchld);
            assert(topics@[2] == Topic::internal_exit);
        }
        self.current
    }

    /// Decide the next step while waiting for `gens` to change.
    pub fn election_step(&self, gens: &GenerationsList, current: &GenerationsList) -> (r: ElectionStep)
        ensures
            r == self.election_of(*gens, *current),
    {
        if *gens != *current {
            ElectionStep::Changed
        } else if self.has_reader {
            ElectionStep::WaitForReader
        } else {
            ElectionStep::TryClaim
        }
    }

    /// Take the reader duty, after the wakeup sentinel was swapped in.
    pub fn become_reader(&mut self)
        requires
            !old(self).has_reader,
        ensures
            final(self).has_reader,
            final(self).current == old(self).current,
    {
        self.has_reader = true;
    }

    /// Give the reader duty up after the notifier woke us; returns the
    /// published generations.
    pub fn stop_reading(&mut self) -> (r: GenerationsList)
        requires
            old(self).has_reader,
        ensures
            !final(self).has_reader,
            final(self).current == old(self).current,
            r == old(self).current,
    {
        self.has_reader = false;
        self.current
    }
}

impl Default for Ledger {
    fn default() -> (r: Self)
        ensures
            forall|t: Topic| #[trigger] r.current.value(t) == 0,
            !r.has_reader,
    {
        Ledger::new()
    }
}

} // verus!

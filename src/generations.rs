//! Topics and the per-topic generation ledger.
#![allow(non_camel_case_types)]
use vstd::prelude::*;
use vstd::string::StringExecFns;

verus! {

/// A generation counter: how many (possibly coalesced) times a topic was posted.
pub type Generation = u64;

/// A generation value which indicates the topic is not of interest.
pub const INVALID_GENERATION: Generation = 0xffff_ffff_ffff_ffff;

/// The list of topics which may be observed.
#[derive(Copy, Clone, Debug, PartialEq, Eq, Structural, PartialOrd, Ord, Hash)]
pub enum Topic {
    /// Corresponds to both SIGHUP and SIGINT signals.
    sighupint,
    /// Corresponds to the SIGCHLD signal.
    sigchld,
    /// Corresponds to an internal process exit.
    internal_exit,
}

impl Topic {
    /// The bit position of the topic in the status word.
    pub open spec fn index(self) -> nat {
        match self {
            Topic::sighupint => 0,
            Topic::sigchld => 1,
            Topic::internal_exit => 2,
        }
    }
}

/// Every topic, in bit-position order.
pub fn all_topics() -> (r: [Topic; 3])
    ensures
        r@ == seq![Topic::sighupint, Topic::sigchld, Topic::internal_exit],
        forall|i: int| 0 <= i < 3 ==> (#[trigger] r@[i]).index() == i,
{
    [Topic::sighupint, Topic::sigchld, Topic::internal_exit]
}

/// One generation value per topic. A value of `INVALID_GENERATION` marks a
/// topic as not of interest.
#[derive(Copy, Clone, Debug, PartialEq, Eq, Structural, PartialOrd, Ord, Hash)]
pub struct GenerationsList {
    pub sighupint: Generation,
    pub sigchld: Generation,
    pub internal_exit: Generation,
}

impl GenerationsList {
    /// The generation recorded for `t`.
    pub open spec fn value(self, t: Topic) -> Generation {
        match t {
            Topic::sighupint => self.sighupint,
            Topic::sigchld => self.sigchld,
            Topic::internal_exit => self.internal_exit,
        }
    }

    /// Whether `t` is of interest in this list.
    pub open spec fn valid(self, t: Topic) -> bool {
        self.value(t) != INVALID_GENERATION
    }

    /// Whether some topic is of interest in this list.
    pub open spec fn some_valid(self) -> bool {
        exists|t: Topic| #[trigger] self.valid(t)
    }

    /// The list with `t` set to `v` and the other topics kept.
    pub open spec fn with(self, t: Topic, v: Generation) -> GenerationsList {
        match t {
            Topic::sighupint => GenerationsList { sighupint: v, ..self },
            Topic::sigchld => GenerationsList { sigchld: v, ..self },
            Topic::internal_exit => GenerationsList { internal_exit: v, ..self },
        }
    }

    /// Overwrite every generation with the one of `other`.
    pub fn update(&mut self, other: &Self)
        ensures
            *final(self) == *other,
    {
        self.sighupint = other.sighupint;
        self.sigchld = other.sigchld;
        self.internal_exit = other.internal_exit;
    }

    /// A list with every generation at zero.
    pub fn new() -> (r: Self)
        ensures
            forall|t: Topic| #[trigger] r.value(t) == 0,
    {
        GenerationsList { sighupint: 0, sigchld: 0, internal_exit: 0 }
    }

    /// Generation list containing invalid generations only.
    pub fn invalid() -> (r: GenerationsList)
        ensures
            forall|t: Topic| #[trigger] r.value(t) == INVALID_GENERATION,
            !r.some_valid(),
    {
        GenerationsList {
            sighupint: INVALID_GENERATION,
            sigchld: INVALID_GENERATION,
            internal_exit: INVALID_GENERATION,
        }
    }

    /// Sets the generation for `topic` to `value`.
    pub fn set(&mut self, topic: Topic, value: Generation)
        ensures
            *final(self) == old(self).with(topic, value),
            final(self).value(topic) == value,
            forall|t: Topic| t != topic ==> #[trigger] final(self).value(t) == old(self).value(t),
    {
        match topic {
            Topic::sighupint => self.sighupint = value,
            Topic::sigchld => self.sigchld = value,
            Topic::internal_exit => self.internal_exit = value,
        }
    }

    /// Return the value for a topic.
    pub fn get(&self, topic: Topic) -> (r: Generation)
        ensures
            r == self.value(topic),
    {
        match topic {
            Topic::sighupint => self.sighupint,
            Topic::sigchld => self.sigchld,
            Topic::internal_exit => self.internal_exit,
        }
    }

    /// The generations in topic order.
    pub fn as_array(&self) -> (r: [Generation; 3])
        ensures
            r@ == seq![self.sighupint, self.sigchld, self.internal_exit],
            forall|t: Topic| #[trigger] r@[t.index() as int] == self.value(t),
    {
        [self.sighupint, self.sigchld, self.internal_exit]
    }

    /// Set the value of `topic` to the smaller of our value and the value in `other`.
    pub fn set_min_from(&mut self, topic: Topic, other: &Self)
        ensures
            final(self).value(topic) == if old(self).value(topic) > other.value(topic) {
                other.value(topic)
            } else {
                old(self).value(topic)
            },
            forall|t: Topic| t != topic ==> #[trigger] final(self).value(t) == old(self).value(t),
    {
        if self.get(topic) > other.get(topic) {
            self.set(topic, other.get(topic));
        }
    }

    /// Return whether a topic is valid.
    pub fn is_valid(&self, topic: Topic) -> (r: bool)
        ensures
            r == self.valid(topic),
    {
        self.get(topic) != INVALID_GENERATION
    }

    /// Return whether any topic is valid.
    pub fn any_valid(&self) -> (r: bool)
        ensures
            r == self.some_valid(),
    {
        let topics = all_topics();
        let mut valid = false;
        let mut i: usize = 0;
        while i < 3
            invariant
                0 <= i <= 3,
                topics@ == seq![Topic::sighupint, Topic::sigchld, Topic::internal_exit],
                valid == exists|j: int| 0 <= j < i && self.valid(#[trigger] topics@[j]),
            decreases 3 - i,
        {
            if self.is_valid(topics[i]) {
                valid = true;
            }
            i = i + 1;
        }
        proof {
            if self.some_valid() {
                let t = choose|t: Topic| #[trigger] self.valid(t);
                assert(topics@[t.index() as int] == t);
            }
        }
        valid
    }
}

/// The character of a decimal digit.
pub open spec fn digit_char(d: nat) -> char {
    if d == 0 { '0' } else if d == 1 { '1' } else if d == 2 { '2' } else if d == 3 { '3' }
    else if d == 4 { '4' } else if d == 5 { '5' } else if d == 6 { '6' } else if d == 7 { '7' }
    else if d == 8 { '8' } else { '9' }
}

/// The decimal digits of `n`, most significant first, without leading zeros.
pub open spec fn decimal_text(n: nat) -> Seq<char>
    decreases n,
{
    if n < 10 {
        seq![digit_char(n)]
    } else {
        decimal_text(n / 10) + seq![digit_char(n % 10)]
    }
}

/// How one generation is shown: `-1` for the sentinel, else its decimal digits.
pub open spec fn generation_text(v: Generation) -> Seq<char> {
    if v == INVALID_GENERATION {
        seq!['-', '1']
    } else {
        decimal_text(v as nat)
    }
}

/// The generations in topic order, separated by commas.
pub open spec fn describe_text(g: GenerationsList) -> Seq<char> {
    generation_text(g.sighupint) + seq![','] + generation_text(g.sigchld) + seq![',']
        + generation_text(g.internal_exit)
}

/// Relies on `u64`'s `ToString` (through `Display`): plain decimal digits,
/// no sign, no padding and no leading zeros.
#[verifier::external_body]
fn decimal(n: u64) -> (r: String)
    ensures
        r@ == decimal_text(n as nat),
{
    n.to_string()
}

impl GenerationsList {
    /// A readable form of the list, such as `0,-1,3`.
    pub fn describe(&self) -> (r: String)
        ensures
            r@ == describe_text(*self),
    {
        let gens = self.as_array();
        let mut result = String::new();
        let mut i: usize = 0;
        while i < 3
            invariant
                0 <= i <= 3,
                gens@ == seq![self.sighupint, self.sigchld, self.internal_exit],
                i == 0 ==> result@ == Seq::<char>::empty(),
                i == 1 ==> result@ == generation_text(self.sighupint),
                i == 2 ==> result@ == generation_text(self.sighupint) + seq![',']
                    + generation_text(self.sigchld),
                i == 3 ==> result@ == describe_text(*self),
            decreases 3 - i,
        {
            if i > 0 {
                proof { reveal_strlit(","); }
                result.append(",");
            }
            let gen = gens[i];
            if gen == INVALID_GENERATION {
                proof { reveal_strlit("-1"); }
                result.append("-1");
            } else {
                let digits = decimal(gen);
                result.append(digits.as_str());
            }
            i = i + 1;
        }
        result
    }
}

impl Default for GenerationsList {
    fn default() -> (r: Self)
        ensures
            forall|t: Topic| #[trigger] r.value(t) == 0,
    {
        GenerationsList::new()
    }
}

} // verus!

//! Topic monitoring: per-topic generation counters, the lock-free status word
//! that signal handlers post to, and the single-reader election that lets many
//! threads wait on overlapping topic sets.
//!
//! Topics are "things that can happen", such as a SIGCHLD delivery. Posting to
//! a topic means it happened; each topic has a generation that grows when
//! posts are flushed into the ledger. Posts may coalesce: two posts may raise
//! the generation by one.
pub mod generations;
pub mod status;
pub mod ledger;
pub mod laws;

pub use generations::{all_topics, Generation, GenerationsList, Topic, INVALID_GENERATION};
pub use ledger::{ElectionStep, Ledger};
pub use status::{
    FlushAttempt, PostAction, StatusBits, StatusWord, TopicBitmask, STATUS_IDLE,
    STATUS_NEEDS_WAKEUP,
};

//! Stand-in actors for tests of message-passing code.
//!
//! A stand-in takes the place of a real actor in a test. It answers one
//! expected message with a prescribed response, answers anything else with a
//! fallback or by closing its mailbox, and keeps a record of every message it
//! handled, so that the test can ask afterwards what was sent.
//!
//! - [`recorder`]: the record of received messages and the counts over it;
//! - [`expectation`]: the expectation and the rule that picks a response;
//! - [`stand_in`]: a stand-in as a mathematical value, one message at a time;
//! - [`actor_expect`]: the stand-in that tests build and send messages to;
//! - [`history`]: what holds of a stand-in over whole histories of messages.

pub mod actor_expect;
pub mod expectation;
pub mod history;
pub mod recorder;
pub mod stand_in;

pub use actor_expect::{ActorExpect, MailboxError};
pub use expectation::Expectation;
pub use recorder::CallRecorder;
pub use stand_in::StandIn;

//! A stand-in as a mathematical value: what it is configured with, what it has
//! recorded, whether its mailbox is open, and how one message changes it.

use vstd::prelude::*;

use crate::expectation::Expectation;

verus! {

/// The state of a stand-in.
pub struct StandIn<I, O> {
    /// What the stand-in answers to; `None` for a placeholder, which answers
    /// to nothing.
    pub expectation: Option<Expectation<I, O>>,
    /// The messages that reached the dispatch rule, oldest first.
    pub received: Seq<I>,
    /// Whether the mailbox still takes messages.
    pub open: bool,
}

impl<I, O> StandIn<I, O> {
    /// A fresh stand-in for `expectation`.
    pub open spec fn expecting(expectation: Expectation<I, O>) -> Self {
        StandIn { expectation: Some(expectation), received: Seq::empty(), open: true }
    }

    /// A fresh placeholder.
    pub open spec fn placeholder() -> Self {
        StandIn { expectation: None, received: Seq::empty(), open: true }
    }

    /// Whether the next message reaches the dispatch rule: the mailbox is open
    /// and there is an expectation to hold the message against.
    pub open spec fn handles(self) -> bool {
        self.open && self.expectation is Some
    }
}

impl<I: PartialEq, O> StandIn<I, O> {
    /// The configured response that a sender of `msg` gets, or `None` where
    /// the delivery fails on a closed mailbox.
    pub open spec fn reply(self, msg: I) -> Option<O> {
        if self.handles() {
            self.expectation->0.response(msg)
        } else {
            None
        }
    }

    /// The stand-in after `msg` was sent to it. A message that reaches the
    /// dispatch rule is recorded, answered or not. The mailbox stays open
    /// exactly if the message got a response.
    pub open spec fn deliver(self, msg: I) -> Self {
        if self.handles() {
            StandIn {
                expectation: self.expectation,
                received: self.received.push(msg),
                open: self.reply(msg) is Some,
            }
        } else {
            StandIn { expectation: self.expectation, received: self.received, open: false }
        }
    }

    /// The stand-in after each of `msgs` was sent to it, first to last.
    pub open spec fn deliver_all(self, msgs: Seq<I>) -> Self
        decreases msgs.len(),
    {
        if msgs.len() == 0 {
            self
        } else {
            self.deliver_all(msgs.drop_last()).deliver(msgs.last())
        }
    }
}

} // verus!

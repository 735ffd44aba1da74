//! The stand-in that a test builds, sends messages to and questions
//! afterwards.

use std::marker::PhantomData;
use vstd::prelude::*;
use vstd::std_specs::cmp::PartialEqSpec;

use crate::expectation::{resolve, success, Expectation};
use crate::recorder::{matching_count, CallRecorder};
use crate::stand_in::StandIn;

verus! {

/// Why a message got no response.
#[derive(Clone, Copy, Debug, PartialEq, Eq, Structural)]
pub enum MailboxError {
    /// The stand-in's mailbox is closed.
    Closed,
}

impl MailboxError {
    /// The failure in words.
    pub fn describe(&self) -> (text: String)
        ensures
            text@ == "MailboxError(Mailbox has closed)"@,
    {
        "MailboxError(Mailbox has closed)".to_owned()
    }
}

/// Whether `delivery` is what a sender may get where the stand-in decided on
/// `reply`: a clone of the configured response, or the closed mailbox.
pub open spec fn delivered<O: Clone, E>(
    reply: Option<O>,
    delivery: Result<Result<O, E>, MailboxError>,
) -> bool {
    match reply {
        Some(configured) => delivery matches Ok(Ok(response)) && cloned(configured, response),
        None => delivery == Err::<Result<O, E>, MailboxError>(MailboxError::Closed),
    }
}

/// A stand-in for an actor that takes messages of type `I` and answers them
/// with `Result<O, E>`.
pub struct ActorExpect<I, O, E> {
    expectation: Option<Expectation<I, O>>,
    received_calls: CallRecorder<I>,
    open: bool,
    phantom_error_data: PhantomData<E>,
}

impl<I, O, E> View for ActorExpect<I, O, E> {
    type V = StandIn<I, O>;

    closed spec fn view(&self) -> StandIn<I, O> {
        StandIn {
            expectation: self.expectation,
            received: self.received_calls@,
            open: self.open,
        }
    }
}

impl<I: PartialEq, O: Clone, E> ActorExpect<I, O, E> {
    /// Creates a stand-in that answers `incoming` with `outgoing` and any other
    /// message with `default_outgoing`. Where `default_outgoing` is `None`, the
    /// first other message closes the mailbox.
    pub fn expect_send(incoming: I, outgoing: O, default_outgoing: Option<O>) -> (stand_in: Self)
        ensures
            stand_in@ == StandIn::expecting(Expectation { incoming, outgoing, default_outgoing }),
    {
        ActorExpect {
            expectation: Some(Expectation { incoming, outgoing, default_outgoing }),
            received_calls: CallRecorder::new(),
            open: true,
            phantom_error_data: PhantomData,
        }
    }

    /// Creates a stand-in that accepts no message: the first one sent to it
    /// closes the mailbox.
    pub fn placeholder() -> (stand_in: Self)
        ensures
            stand_in@ == StandIn::<I, O>::placeholder(),
    {
        ActorExpect {
            expectation: None,
            received_calls: CallRecorder::new(),
            open: true,
            phantom_error_data: PhantomData,
        }
    }

    /// Number of messages that reached the dispatch rule, answered or not.
    pub fn total_calls(&self) -> (n: usize)
        ensures
            n == self@.received.len(),
    {
        self.received_calls.count()
    }

    /// Number of received messages that `msg` compares equal to.
    pub fn calls_of_variant(&self, msg: I) -> (n: usize)
        ensures
            n <= self@.received.len(),
            I::obeys_eq_spec() ==> n == matching_count(self@.received, msg),
    {
        self.received_calls.count_matching(&msg)
    }

    /// Sends `msg` to the stand-in and hands back what its sender gets: the
    /// response, or the failure of a closed mailbox. A message that finds the
    /// mailbox open and an expectation to meet is recorded and dispatched; one
    /// that gets no response closes the mailbox for good.
    ///
    /// All but the first clause hold whatever `==` on `I` does.
    pub fn send(&mut self, msg: I) -> (delivery: Result<Result<O, E>, MailboxError>)
        ensures
            I::obeys_eq_spec() || !old(self)@.handles() ==> {
                &&& final(self)@ == old(self)@.deliver(msg)
                &&& delivered(old(self)@.reply(msg), delivery)
            },
            final(self)@.expectation == old(self)@.expectation,
            final(self)@.received == old(self)@.deliver(msg).received,
            final(self)@.open == delivery is Ok,
            old(self)@.handles() ==> {
                ||| delivered(Some(old(self)@.expectation->0.outgoing), delivery)
                ||| delivered(old(self)@.expectation->0.default_outgoing, delivery)
            },
    {
        if !self.open {
            return Err(MailboxError::Closed);
        }
        match &self.expectation {
            None => {
                self.open = false;
                Err(MailboxError::Closed)
            },
            Some(expectation) => {
                let outgoing = expectation.outgoing.clone();
                let default_outgoing = match &expectation.default_outgoing {
                    Some(response) => Some(response.clone()),
                    None => None,
                };
                let result = Self::process_messaging(
                    &mut self.received_calls,
                    msg,
                    &expectation.incoming,
                    outgoing,
                    default_outgoing,
                );
                match result {
                    Some(response) => Ok(response),
                    None => {
                        self.open = false;
                        Err(MailboxError::Closed)
                    },
                }
            },
        }
    }

    /// The dispatch rule: records `msg` in `log`, then answers it with
    /// `outgoing` if it compares equal to `incoming`, and with
    /// `default_outgoing` otherwise. `None` means no response.
    ///
    /// The last clause holds whatever `==` on `I` does.
    pub fn process_messaging(
        log: &mut CallRecorder<I>,
        msg: I,
        incoming: &I,
        outgoing: O,
        default_outgoing: Option<O>,
    ) -> (result: Option<Result<O, E>>)
        ensures
            final(log)@ == old(log)@.push(msg),
            I::obeys_eq_spec() ==> result == success::<O, E>(
                resolve(msg, *incoming, outgoing, default_outgoing),
            ),
            result == success::<O, E>(Some(outgoing)) || result == success::<O, E>(
                default_outgoing,
            ),
    {
        let matched = msg == *incoming;
        log.record(msg);
        if matched {
            Some(Ok(outgoing))
        } else {
            match default_outgoing {
                Some(response) => Some(Ok(response)),
                None => None,
            }
        }
    }
}

} // verus!

//! The expectation a stand-in is configured with, and the rule that picks its
//! response to a received message.

use vstd::laws_eq::obeys_concrete_eq;
use vstd::prelude::*;
use vstd::std_specs::cmp::PartialEqSpec;

verus! {

/// The one message a stand-in waits for, the response it gives to it, and the
/// response, if any, it gives to every other message.
pub struct Expectation<I, O> {
    pub incoming: I,
    pub outgoing: O,
    pub default_outgoing: Option<O>,
}

/// The response configured for `msg`: `outgoing` where `msg` compares equal to
/// `incoming`, otherwise the fallback, which may be absent.
pub open spec fn resolve<I: PartialEq, O>(
    msg: I,
    incoming: I,
    outgoing: O,
    default_outgoing: Option<O>,
) -> Option<O> {
    if msg.eq_spec(&incoming) {
        Some(outgoing)
    } else {
        default_outgoing
    }
}

/// A configured response in the shape the dispatch rule hands it back: wrapped
/// as a success, or absent.
pub open spec fn success<O, E>(response: Option<O>) -> Option<Result<O, E>> {
    match response {
        Some(response) => Some(Ok(response)),
        None => None,
    }
}

/// Where `==` on `I` is structural equality, the expected message itself gets
/// `outgoing`, and every other value gets the fallback.
pub proof fn lemma_resolve_by_value<I: PartialEq, O>(
    msg: I,
    incoming: I,
    outgoing: O,
    default_outgoing: Option<O>,
)
    requires
        obeys_concrete_eq::<I>(),
    ensures
        resolve(incoming, incoming, outgoing, default_outgoing) == Some(outgoing),
        msg != incoming ==> resolve(msg, incoming, outgoing, default_outgoing) == default_outgoing,
{
    reveal(obeys_concrete_eq);
}

impl<I: PartialEq, O> Expectation<I, O> {
    /// The response this expectation configures for `msg`.
    pub open spec fn response(self, msg: I) -> Option<O> {
        resolve(msg, self.incoming, self.outgoing, self.default_outgoing)
    }
}

} // verus!

//! What holds of a stand-in over whole histories of messages.

use vstd::prelude::*;
use vstd::std_specs::cmp::PartialEqSpec;

use crate::expectation::Expectation;
use crate::stand_in::StandIn;

verus! {

/// Sending never touches the expectation, and the record only ever grows: it
/// keeps what it held at the start, in order, and gains at most one entry for
/// each message sent.
pub proof fn lemma_record_only_grows<I: PartialEq, O>(start: StandIn<I, O>, msgs: Seq<I>)
    ensures
        start.deliver_all(msgs).expectation == start.expectation,
        start.received.is_prefix_of(start.deliver_all(msgs).received),
        start.deliver_all(msgs).received.len() <= start.received.len() + msgs.len(),
    decreases msgs.len(),
{
    if msgs.len() > 0 {
        lemma_record_only_grows(start, msgs.drop_last());
    }
}

/// Sending `first` and then `rest` is sending the two in one run.
pub proof fn lemma_deliver_all_in_two_runs<I: PartialEq, O>(
    start: StandIn<I, O>,
    first: Seq<I>,
    rest: Seq<I>,
)
    ensures
        start.deliver_all(first + rest) == start.deliver_all(first).deliver_all(rest),
    decreases rest.len(),
{
    if rest.len() == 0 {
        assert(first + rest =~= first);
    } else {
        lemma_deliver_all_in_two_runs(start, first, rest.drop_last());
        assert((first + rest).drop_last() =~= first + rest.drop_last());
    }
}

/// The record is what it was, followed by the messages sent up to some point:
/// nothing is recorded twice or out of order, and nothing after a message
/// that was not recorded. A stand-in that still handles messages has recorded
/// every one of them.
pub proof fn lemma_record_is_a_prefix_of_what_was_sent<I: PartialEq, O>(
    start: StandIn<I, O>,
    msgs: Seq<I>,
)
    ensures
        start.deliver_all(msgs).received.is_prefix_of(start.received + msgs),
        start.deliver_all(msgs).handles() ==> start.deliver_all(msgs).received == start.received
            + msgs,
    decreases msgs.len(),
{
    if msgs.len() > 0 {
        let earlier = msgs.drop_last();
        lemma_record_is_a_prefix_of_what_was_sent(start, earlier);
        assert(start.received + msgs =~= (start.received + earlier).push(msgs.last()));
    } else {
        assert(start.received + msgs =~= start.received);
    }
}

/// Where each of `msgs` reaches the dispatch rule, each is recorded exactly
/// once and in order, whether it matched the expectation or not: the number of
/// calls grows by the number of messages.
pub proof fn lemma_every_handled_message_is_recorded<I: PartialEq, O>(
    start: StandIn<I, O>,
    msgs: Seq<I>,
)
    requires
        forall|i: int| 0 <= i < msgs.len() ==> #[trigger] start.deliver_all(msgs.take(i)).handles(),
    ensures
        start.deliver_all(msgs).received == start.received + msgs,
        start.deliver_all(msgs).received.len() == start.received.len() + msgs.len(),
    decreases msgs.len(),
{
    if msgs.len() > 0 {
        let earlier = msgs.drop_last();
        assert forall|i: int| 0 <= i < earlier.len() implies #[trigger] start.deliver_all(
            earlier.take(i),
        ).handles() by {
            assert(earlier.take(i) =~= msgs.take(i));
        }
        lemma_every_handled_message_is_recorded(start, earlier);
        assert(msgs.take(msgs.len() - 1) =~= earlier);
        assert(start.deliver_all(earlier).handles());
        assert(start.received + msgs =~= (start.received + earlier).push(msgs.last()));
    } else {
        assert(start.received + msgs =~= start.received);
    }
}

/// A message that does not reach the dispatch rule, because the mailbox is
/// closed or the stand-in is a placeholder, is not recorded: the number of
/// calls then stays below what it was plus the number of messages.
pub proof fn lemma_unhandled_message_is_not_recorded<I: PartialEq, O>(
    start: StandIn<I, O>,
    msgs: Seq<I>,
    i: int,
)
    requires
        0 <= i < msgs.len(),
        !start.deliver_all(msgs.take(i)).handles(),
    ensures
        start.deliver_all(msgs).received.len() < start.received.len() + msgs.len(),
{
    let before = start.deliver_all(msgs.take(i));
    let after = start.deliver_all(msgs.take(i + 1));
    assert(msgs.take(i + 1).drop_last() =~= msgs.take(i));
    assert(after == before.deliver(msgs[i]));
    lemma_record_only_grows(start, msgs.take(i));
    lemma_record_only_grows(after, msgs.skip(i + 1));
    lemma_deliver_all_in_two_runs(start, msgs.take(i + 1), msgs.skip(i + 1));
    assert(msgs.take(i + 1) + msgs.skip(i + 1) =~= msgs);
}

/// A stand-in with a fallback answers every message, after any history: the
/// expected message with the prescribed response, any other with the
/// fallback. Either way the message is recorded, so the number of calls grows
/// by exactly one, and the mailbox stays open.
pub proof fn lemma_fallback_answers_every_message<I: PartialEq, O>(
    expectation: Expectation<I, O>,
    history: Seq<I>,
    msg: I,
)
    requires
        expectation.default_outgoing is Some,
    ensures
        ({
            let now = StandIn::expecting(expectation).deliver_all(history);
            &&& now.handles()
            &&& now.received == history
            &&& now.reply(msg) == Some(
                if msg.eq_spec(&expectation.incoming) {
                    expectation.outgoing
                } else {
                    expectation.default_outgoing->0
                },
            )
            &&& now.deliver(msg).received.len() == now.received.len() + 1
            &&& now.deliver(msg).open
        }),
    decreases history.len(),
{
    lemma_record_only_grows(StandIn::expecting(expectation), history);
    if history.len() > 0 {
        lemma_fallback_answers_every_message(expectation, history.drop_last(), history.last());
        assert(history.drop_last().push(history.last()) =~= history);
    }
}

/// A stand-in without a fallback is open exactly as long as every message so
/// far was the expected one, and has then recorded them all. While it is
/// open, the expected message gets the prescribed response and leaves it
/// open; any other message is recorded, fails on a closed mailbox and closes
/// it. Once it is closed, no message gets a response.
pub proof fn lemma_mismatch_without_fallback_closes<I: PartialEq, O>(
    expectation: Expectation<I, O>,
    history: Seq<I>,
    msg: I,
)
    requires
        expectation.default_outgoing is None,
    ensures
        ({
            let now = StandIn::expecting(expectation).deliver_all(history);
            let expected = msg.eq_spec(&expectation.incoming);
            &&& now.open <==> forall|i: int|
                0 <= i < history.len() ==> (#[trigger] history[i]).eq_spec(&expectation.incoming)
            &&& now.open ==> now.received == history
            &&& now.reply(msg) == if now.open && expected {
                Some(expectation.outgoing)
            } else {
                None
            }
            &&& now.open ==> now.deliver(msg).received == history.push(msg)
            &&& now.deliver(msg).open <==> now.open && expected
        }),
    decreases history.len(),
{
    let fresh = StandIn::expecting(expectation);
    lemma_record_only_grows(fresh, history);
    lemma_record_is_a_prefix_of_what_was_sent(fresh, history);
    assert(fresh.received + history =~= history);
    if history.len() > 0 {
        let earlier = history.drop_last();
        lemma_mismatch_without_fallback_closes(expectation, earlier, history.last());
        let before = fresh.deliver_all(earlier);
        if before.open && history.last().eq_spec(&expectation.incoming) {
            assert forall|i: int| 0 <= i < history.len() implies (#[trigger] history[i]).eq_spec(
                &expectation.incoming,
            ) by {
                if i < earlier.len() {
                    assert(earlier[i] == history[i]);
                }
            }
        } else if before.open {
            assert(!history[history.len() - 1].eq_spec(&expectation.incoming));
        } else {
            let i = choose|i: int|
                0 <= i < earlier.len() && !(#[trigger] earlier[i]).eq_spec(&expectation.incoming);
            assert(earlier[i] == history[i]);
        }
    }
}

/// A closed mailbox stays closed: whatever is sent to it, the stand-in does
/// not change, nothing more is recorded, and no message gets a response.
pub proof fn lemma_closed_mailbox_stays_closed<I: PartialEq, O>(
    closed: StandIn<I, O>,
    msgs: Seq<I>,
    msg: I,
)
    requires
        !closed.open,
    ensures
        closed.deliver_all(msgs) == closed,
        closed.deliver_all(msgs).reply(msg) is None,
    decreases msgs.len(),
{
    if msgs.len() > 0 {
        lemma_closed_mailbox_stays_closed(closed, msgs.drop_last(), msgs.last());
    }
}

/// A placeholder answers nothing and records nothing: every message sent to
/// it, the first included, fails on a closed mailbox, and the number of calls
/// stays zero.
pub proof fn lemma_placeholder_answers_nothing<I: PartialEq, O>(history: Seq<I>, msg: I)
    ensures
        ({
            let now = StandIn::<I, O>::placeholder().deliver_all(history);
            &&& now.reply(msg) is None
            &&& now.received.len() == 0
            &&& now.deliver(msg).received.len() == 0
            &&& !now.deliver(msg).open
            &&& now.open <==> history.len() == 0
        }),
    decreases history.len(),
{
    if history.len() > 0 {
        lemma_placeholder_answers_nothing::<I, O>(history.drop_last(), history.last());
    }
}

} // verus!

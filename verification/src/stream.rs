//! A whole buffer decoded call after call, as the caller of the parser does it,
//! and what that does not depend on: where the buffer was cut.

use crate::message::view::MessageView;
use crate::message::view::SystemMessageView;
use crate::protocol::lemma_consumption_bound;
use crate::protocol::lemma_interrupting_byte;
use crate::protocol::lemma_later_bytes_change_nothing;
use crate::protocol::lemma_progress_or_patience;
use crate::protocol::lemma_running_stays_valid;
use crate::protocol::parse_outcome;
use crate::protocol::parse_running;
use crate::protocol::valid_running;
use crate::protocol::OutcomeStatusView;
use crate::protocol::OutcomeView;
use vstd::prelude::*;

verus! {

/// Where decoding a buffer ends.
pub struct Run {
    /// What the calls reported, in order, up to the first that asked for more
    /// bytes.
    pub outcomes: Seq<OutcomeView>,
    /// The running status then.
    pub running: Option<u8>,
    /// The bytes not yet decoded: those of a message whose end has not arrived.
    pub rest: Seq<u8>,
}

/// `outcome`, then all of `tail`.
pub open spec fn after(outcome: OutcomeView, tail: Run) -> Run {
    Run { outcomes: seq![outcome] + tail.outcomes, running: tail.running, rest: tail.rest }
}

/// What the caller keeps of `input` after a call that reported `outcome`: it
/// drops the bytes consumed from the head, and where a real-time message
/// interrupted, it takes the byte of that message out.
pub open spec fn remaining(outcome: OutcomeView, input: Seq<u8>) -> Seq<u8> {
    match outcome.status {
        OutcomeStatusView::InterruptingSystemRealTimeMessage { byte_index, .. } => input.remove(
            byte_index as int,
        ),
        _ => input.skip(outcome.bytes_consumed as int),
    }
}

/// Decoding `input` from running status `running`, call after call, until a call
/// asks for more bytes.
pub open spec fn run(running: Option<u8>, input: Seq<u8>) -> Run
    decreases input.len(),
    when valid_running(running)
    via run_decreases
{
    let outcome = parse_outcome(running, input);
    if outcome.status is NeedMoreBytes {
        Run { outcomes: Seq::empty(), running: running, rest: input }
    } else {
        after(outcome, run(parse_running(running, input), remaining(outcome, input)))
    }
}

#[via_fn]
proof fn run_decreases(running: Option<u8>, input: Seq<u8>) {
    lemma_step(running, input);
}

/// A call that does not ask for more bytes leaves the caller with fewer bytes
/// than it had, and a running status that is valid again.
pub proof fn lemma_step(running: Option<u8>, input: Seq<u8>)
    requires
        valid_running(running),
    ensures
        valid_running(parse_running(running, input)),
        !(parse_outcome(running, input).status is NeedMoreBytes) ==> remaining(
            parse_outcome(running, input),
            input,
        ).len() < input.len(),
{
    lemma_consumption_bound(running, input);
    lemma_progress_or_patience(running, input);
    lemma_interrupting_byte(running, input);
    lemma_running_stays_valid(running, input);
}

/// Bytes that arrive behind an input whose head has been decoded stay behind
/// what the caller keeps of it; the outcome and the running status are as they
/// were without them.
pub proof fn lemma_step_with_later_bytes(running: Option<u8>, input: Seq<u8>, more: Seq<u8>)
    requires
        !(parse_outcome(running, input).status is NeedMoreBytes),
    ensures
        parse_outcome(running, input + more) == parse_outcome(running, input),
        parse_running(running, input + more) == parse_running(running, input),
        remaining(parse_outcome(running, input), input + more) == remaining(
            parse_outcome(running, input),
            input,
        ) + more,
{
    lemma_later_bytes_change_nothing(running, input, more);
    lemma_consumption_bound(running, input);
    lemma_interrupting_byte(running, input);
    let outcome = parse_outcome(running, input);
    assert(remaining(outcome, input + more) =~= remaining(outcome, input) + more);
}

/// Decoding does not depend on how the bytes arrive. Decoding `first`, and then
/// what that left undecoded together with `second`, reports what decoding both
/// at once reports, and ends where that ends.
pub proof fn lemma_run_in_two_parts(running: Option<u8>, first: Seq<u8>, second: Seq<u8>)
    requires
        valid_running(running),
    ensures
        valid_running(run(running, first).running),
        run(running, first + second) == (Run {
            outcomes: run(running, first).outcomes + run(
                run(running, first).running,
                run(running, first).rest + second,
            ).outcomes,
            running: run(run(running, first).running, run(running, first).rest + second).running,
            rest: run(run(running, first).running, run(running, first).rest + second).rest,
        }),
    decreases first.len(),
{
    let outcome = parse_outcome(running, first);
    if outcome.status is NeedMoreBytes {
        let whole = run(running, first + second);
        assert(Seq::<OutcomeView>::empty() + whole.outcomes =~= whole.outcomes);
    } else {
        let next = parse_running(running, first);
        let kept = remaining(outcome, first);
        lemma_step(running, first);
        lemma_step_with_later_bytes(running, first, second);
        lemma_run_in_two_parts(next, kept, second);
        let tail = run(next, kept);
        let then = run(tail.running, tail.rest + second);
        assert(run(running, first) == after(outcome, tail));
        assert(run(running, first + second) == after(outcome, run(next, kept + second)));
        assert((seq![outcome] + tail.outcomes) + then.outcomes =~= seq![outcome] + (tail.outcomes
            + then.outcomes));
    }
}

/// Where `first` ends on a message boundary, that is, decoding it leaves no byte
/// undecoded, decoding `first` and then `second` reports what decoding the two
/// in one pass reports, and ends where that ends.
pub proof fn lemma_run_concatenation(running: Option<u8>, first: Seq<u8>, second: Seq<u8>)
    requires
        valid_running(running),
        run(running, first).rest.len() == 0,
    ensures
        run(running, first + second) == (Run {
            outcomes: run(running, first).outcomes + run(
                run(running, first).running,
                second,
            ).outcomes,
            running: run(run(running, first).running, second).running,
            rest: run(run(running, first).running, second).rest,
        }),
{
    lemma_run_in_two_parts(running, first, second);
    assert(run(running, first).rest + second =~= second);
}

/// The messages among `outcomes`, in order. A real-time message that
/// interrupted another message is one of them, at the place where it was
/// reported.
pub open spec fn messages(outcomes: Seq<OutcomeView>) -> Seq<MessageView>
    decreases outcomes.len(),
{
    if outcomes.len() == 0 {
        Seq::empty()
    } else {
        let earlier = messages(outcomes.drop_last());
        match outcomes.last().status {
            OutcomeStatusView::Message(message) => earlier.push(message),
            OutcomeStatusView::InterruptingSystemRealTimeMessage { message, .. } => earlier.push(
                MessageView::System(SystemMessageView::SystemRealTime(message)),
            ),
            _ => earlier,
        }
    }
}

/// The messages of two runs of outcomes, one after the other, are the messages
/// of the first followed by those of the second.
pub proof fn lemma_messages_of_both(first: Seq<OutcomeView>, second: Seq<OutcomeView>)
    ensures
        messages(first + second) == messages(first) + messages(second),
    decreases second.len(),
{
    if second.len() == 0 {
        assert(first + second =~= first);
        assert(messages(first) + messages(second) =~= messages(first));
    } else {
        let both = first + second;
        assert(both.drop_last() =~= first + second.drop_last());
        assert(both.last() == second.last());
        lemma_messages_of_both(first, second.drop_last());
        let earlier = messages(first) + messages(second.drop_last());
        match second.last().status {
            OutcomeStatusView::Message(message) => {
                assert(earlier.push(message) =~= messages(first) + messages(
                    second.drop_last(),
                ).push(message));
            },
            OutcomeStatusView::InterruptingSystemRealTimeMessage { message, .. } => {
                let real_time = MessageView::System(SystemMessageView::SystemRealTime(message));
                assert(earlier.push(real_time) =~= messages(first) + messages(
                    second.drop_last(),
                ).push(real_time));
            },
            _ => {},
        }
    }
}

/// Where `first` ends on a message boundary, decoding `first` and then `second`
/// yields the same sequence of messages as decoding the two in one pass.
pub proof fn lemma_same_messages_in_one_pass(
    running: Option<u8>,
    first: Seq<u8>,
    second: Seq<u8>,
)
    requires
        valid_running(running),
        run(running, first).rest.len() == 0,
    ensures
        messages(run(running, first + second).outcomes) == messages(run(running, first).outcomes)
            + messages(run(run(running, first).running, second).outcomes),
{
    lemma_run_concatenation(running, first, second);
    lemma_messages_of_both(
        run(running, first).outcomes,
        run(run(running, first).running, second).outcomes,
    );
}

} // verus!

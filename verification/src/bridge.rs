//! Single-shot bridge from a "submit now, complete later" host operation to
//! a future.
//!
//! The request is submitted synchronously and eagerly, before anyone awaits
//! the result: the submission either fails at once with an error code, or
//! hands back a watchable completion with a non-blocking peek and a
//! subscription.  Each poll of the bridge peeks once: a result resolves the
//! future; otherwise the bridge subscribes to the completion's wait handle
//! and suspends — exactly one subscription per pending poll.  A failed
//! submission resolves on the first poll without ever peeking, subscribing
//! or suspending.
//!
//! Response handles and error codes are opaque host tokens here.

use vstd::prelude::*;

verus! {

/// How the synchronous submission of the request ended.
#[derive(Clone, Copy, PartialEq, Eq, Structural, Debug)]
pub enum SubmitReply {
    /// The host accepted the request; it is now in flight.
    Accepted,
    /// The host refused the request with this error code.
    Refused(u64),
}

/// Reply of one non-blocking peek at the in-flight completion.
#[derive(Clone, Copy, PartialEq, Eq, Debug)]
pub enum PeekReply {
    /// No result yet.
    NotReady,
    /// The exchange finished: a response handle, or an error code.
    Ready(Result<u64, u64>),
}

/// What one poll of the bridge does.
#[derive(Clone, Copy, PartialEq, Eq, Debug)]
pub enum BridgePoll {
    /// Resolve the future with this result.
    Resolve(Result<u64, u64>),
    /// Subscribe to the completion's wait handle and suspend.
    Subscribe,
}

/// One host interaction of the bridge, after a successful submission.
#[derive(Clone, Copy, PartialEq, Eq, Debug)]
pub enum BridgeEvent {
    /// The completion was peeked and replied so.
    Peek(PeekReply),
    /// The completion's wait handle was subscribed to and the poll
    /// suspended.
    Subscribe,
}

/// Whether a poll peeks at the completion at all: only when the submission
/// was accepted.  A refused submission resolves from the stored error alone.
pub fn bridge_needs_peek(submit: &SubmitReply) -> (b: bool)
    ensures
        b <==> (submit is Accepted),
{
    match submit {
        SubmitReply::Accepted => true,
        SubmitReply::Refused(_) => false,
    }
}

/// Decide what a poll does from one peek reply: a finished exchange
/// resolves the future, anything else subscribes and suspends.
pub fn bridge_on_peek(peek: PeekReply) -> (r: BridgePoll)
    ensures
        peek matches PeekReply::Ready(x) ==> r == BridgePoll::Resolve(x),
        peek == PeekReply::NotReady ==> r == BridgePoll::Subscribe,
{
    match peek {
        PeekReply::Ready(x) => BridgePoll::Resolve(x),
        PeekReply::NotReady => BridgePoll::Subscribe,
    }
}

/// The host interactions an accepted submission's peek script causes: one
/// peek per poll, with a subscription after every "not ready" reply and
/// nothing after the first result.
pub open spec fn bridge_events_of(peeks: Seq<PeekReply>) -> Seq<BridgeEvent>
    decreases peeks.len(),
{
    if peeks.len() == 0 {
        Seq::empty()
    } else {
        match peeks.first() {
            PeekReply::NotReady => seq![
                BridgeEvent::Peek(PeekReply::NotReady),
                BridgeEvent::Subscribe,
            ] + bridge_events_of(peeks.drop_first()),
            PeekReply::Ready(x) => seq![BridgeEvent::Peek(PeekReply::Ready(x))],
        }
    }
}

/// The result an accepted submission's peek script leads to: the first
/// finished reply, or nothing if every peek said "not ready".
pub open spec fn bridge_outcome_of(peeks: Seq<PeekReply>) -> Option<Result<u64, u64>>
    decreases peeks.len(),
{
    if peeks.len() == 0 {
        None
    } else {
        match peeks.first() {
            PeekReply::NotReady => bridge_outcome_of(peeks.drop_first()),
            PeekReply::Ready(x) => Some(x),
        }
    }
}

/// Drive the bridge to resolution against a recorded script of peek
/// replies.
///
/// A refused submission resolves at once with its error code, without one
/// host interaction: no peek, no subscription, no suspension.  An accepted
/// submission peeks once per poll, subscribes exactly once after every
/// "not ready" reply, and resolves with the first finished reply; `None`
/// means the script ran out while still pending.
pub fn drive_send(submit: SubmitReply, peeks: Vec<PeekReply>) -> (r: (
    Option<Result<u64, u64>>,
    Vec<BridgeEvent>,
))
    ensures
        submit matches SubmitReply::Refused(e) ==> r.0 == Some(Err::<u64, u64>(e)) && r.1@
            == Seq::<BridgeEvent>::empty(),
        submit == SubmitReply::Accepted ==> r.0 == bridge_outcome_of(peeks@) && r.1@
            == bridge_events_of(peeks@),
{
    let mut events: Vec<BridgeEvent> = Vec::new();
    match submit {
        SubmitReply::Refused(e) => {
            return (Some(Err(e)), events);
        },
        SubmitReply::Accepted => {},
    }
    let ghost orig = peeks@;
    let mut rem = peeks;
    loop
        invariant
            submit == SubmitReply::Accepted,
            orig == peeks@,
            events@ + bridge_events_of(rem@) == bridge_events_of(orig),
            bridge_outcome_of(rem@) == bridge_outcome_of(orig),
        decreases rem.len(),
    {
        if rem.len() == 0 {
            proof {
                assert(events@ + bridge_events_of(rem@) =~= events@);
            }
            return (None, events);
        }
        let ghost rem0 = rem@;
        let peek = rem.remove(0);
        proof {
            assert(rem@ =~= rem0.drop_first());
        }
        events.push(BridgeEvent::Peek(peek));
        match bridge_on_peek(peek) {
            BridgePoll::Resolve(x) => {
                proof {
                    assert(bridge_events_of(rem0) =~= seq![BridgeEvent::Peek(peek)]);
                    assert(events@ =~= (events@.drop_last()) + bridge_events_of(rem0));
                }
                return (Some(x), events);
            },
            BridgePoll::Subscribe => {
                let ghost events0 = events@;
                events.push(BridgeEvent::Subscribe);
                proof {
                    assert(bridge_events_of(rem0) == seq![
                        BridgeEvent::Peek(PeekReply::NotReady),
                        BridgeEvent::Subscribe,
                    ] + bridge_events_of(rem@));
                    assert(events@ + bridge_events_of(rem@) =~= (events0.drop_last())
                        + bridge_events_of(rem0));
                }
            },
        }
    }
}

/// One subscription per pending poll, and none otherwise: in the
/// interactions of an accepted submission, a subscription appears exactly
/// right after a "not ready" peek.
pub proof fn lemma_one_subscribe_per_pending(peeks: Seq<PeekReply>)
    ensures
        forall|i: int|
            0 <= i < bridge_events_of(peeks).len() ==> ((#[trigger] bridge_events_of(peeks)[i])
                is Subscribe <==> (0 < i && bridge_events_of(peeks)[i - 1] == BridgeEvent::Peek(
                PeekReply::NotReady,
            ))),
    decreases peeks.len(),
{
    let ev = bridge_events_of(peeks);
    if peeks.len() > 0 {
        lemma_one_subscribe_per_pending(peeks.drop_first());
        let rest = bridge_events_of(peeks.drop_first());
        match peeks.first() {
            PeekReply::NotReady => {
                assert forall|i: int| 0 <= i < ev.len() implies ((#[trigger] ev[i]) is Subscribe
                    <==> (0 < i && ev[i - 1] == BridgeEvent::Peek(PeekReply::NotReady))) by {
                    if i >= 2 {
                        assert(ev[i] == rest[i - 2]);
                        if i >= 3 {
                            assert(ev[i - 1] == rest[i - 3]);
                        }
                    }
                }
            },
            PeekReply::Ready(_) => {},
        }
    }
}

} // verus!

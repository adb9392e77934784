//! Pull-based, finite chunk stream over a readable host stream.
//!
//! Each pull issues one non-blocking read of up to [`READ_BUDGET`] bytes.  A
//! non-empty result is yielded as a chunk; an empty result suspends on the
//! stream's wait handle; a closed stream ends the sequence cleanly; a failed
//! read yields the error as the single terminal element, after which no
//! further read is attempted.  The sequence is single-pass and finite.
//!
//! [`stream_on_read`] is the per-pull decision; [`read_chunks`] drives a
//! whole stream against a recorded script of host replies; [`collect_chunks`]
//! is the aggregation helper that drains the sequence into one buffer,
//! failing eagerly on the first error element.

use vstd::prelude::*;

verus! {

/// Upper bound, in bytes, of one non-blocking read request.
pub const READ_BUDGET: u64 = 16 * 1024;

/// Reply of one non-blocking read on the host stream.
#[derive(PartialEq, Eq, Debug)]
pub enum ReadReply {
    /// The host handed over these bytes; empty means none available yet.
    Data(Vec<u8>),
    /// The peer closed the stream.
    Closed,
    /// The read failed; the payload is the host's opaque error token.
    Failed(u64),
}

/// What one pull does after a read reply.
#[derive(PartialEq, Eq, Debug)]
pub enum PullStep {
    /// Yield this non-empty chunk without suspending.
    Yield(Vec<u8>),
    /// Nothing available yet: subscribe to the wait handle and suspend.
    Suspend,
    /// The stream ended cleanly; the sequence is over.
    End,
    /// Yield this error as the terminal element of the sequence.
    YieldError(u64),
}

/// Decide what one pull does from the read reply it got.
pub fn stream_on_read(reply: ReadReply) -> (r: PullStep)
    ensures
        reply matches ReadReply::Data(d) ==> {
            &&& d@.len() > 0 ==> (r matches PullStep::Yield(y) && y@ == d@)
            &&& d@.len() == 0 ==> r == PullStep::Suspend
        },
        reply == ReadReply::Closed ==> r == PullStep::End,
        reply matches ReadReply::Failed(e) ==> r == PullStep::YieldError(e),
{
    match reply {
        ReadReply::Data(d) => if d.len() > 0 {
            PullStep::Yield(d)
        } else {
            PullStep::Suspend
        },
        ReadReply::Closed => PullStep::End,
        ReadReply::Failed(e) => PullStep::YieldError(e),
    }
}

/// The byte-level view of one element of the chunk sequence.
pub open spec fn item_view(r: Result<Vec<u8>, u64>) -> Result<Seq<u8>, u64> {
    match r {
        Ok(v) => Ok(v@),
        Err(e) => Err(e),
    }
}

/// The chunk sequence a reply script produces: every non-empty read becomes
/// a chunk, empty reads are skipped (they only suspend), a close ends the
/// sequence with nothing further, and a failure ends it with one terminal
/// error element.
pub open spec fn items_of(s: Seq<ReadReply>) -> Seq<Result<Seq<u8>, u64>>
    decreases s.len(),
{
    if s.len() == 0 {
        Seq::empty()
    } else {
        match s.first() {
            ReadReply::Data(d) => if d@.len() > 0 {
                seq![Ok(d@)] + items_of(s.drop_first())
            } else {
                items_of(s.drop_first())
            },
            ReadReply::Closed => Seq::empty(),
            ReadReply::Failed(e) => seq![Err(e)],
        }
    }
}

/// The calls a reply script makes the stream issue: one read per reply up
/// to and including the first close or failure, with a subscription (and a
/// suspension) after every empty read.
pub open spec fn events_of(s: Seq<ReadReply>) -> Seq<ReadCall>
    decreases s.len(),
{
    if s.len() == 0 {
        Seq::empty()
    } else {
        match s.first() {
            ReadReply::Data(d) => if d@.len() > 0 {
                seq![ReadCall::Read] + events_of(s.drop_first())
            } else {
                seq![ReadCall::Read, ReadCall::Subscribe] + events_of(s.drop_first())
            },
            ReadReply::Closed => seq![ReadCall::Read],
            ReadReply::Failed(_) => seq![ReadCall::Read],
        }
    }
}

/// One host call made while pulling chunks.
#[derive(Clone, Copy, PartialEq, Eq, Structural, Debug)]
pub enum ReadCall {
    /// A read of up to [`READ_BUDGET`] bytes was issued.
    Read,
    /// The stream's wait handle was subscribed to and the pull suspended.
    Subscribe,
}

/// The byte-level views of a vector of chunk-sequence elements.
pub open spec fn views_of(items: Seq<Result<Vec<u8>, u64>>) -> Seq<Result<Seq<u8>, u64>> {
    items.map_values(|r: Result<Vec<u8>, u64>| item_view(r))
}

proof fn lemma_views_push(items: Seq<Result<Vec<u8>, u64>>, x: Result<Vec<u8>, u64>)
    ensures
        views_of(items.push(x)) == views_of(items).push(item_view(x)),
{
    assert(views_of(items.push(x)) =~= views_of(items).push(item_view(x)));
}

/// Pull every chunk out of a readable stream whose replies are given by a
/// recorded script, returning the produced sequence and the calls made.
///
/// The result is exactly [`items_of`] the script: each non-empty read
/// yields one chunk, in order; an empty read subscribes and suspends; the
/// first close ends the sequence cleanly; the first failure ends it with
/// one terminal error element.  The transcript is exactly [`events_of`] the
/// script, so no read is ever attempted past the first close or failure.
pub fn read_chunks(script: Vec<ReadReply>) -> (r: (Vec<Result<Vec<u8>, u64>>, Vec<ReadCall>))
    ensures
        views_of(r.0@) == items_of(script@),
        r.1@ == events_of(script@),
{
    let ghost orig = script@;
    let mut rem = script;
    let mut items: Vec<Result<Vec<u8>, u64>> = Vec::new();
    let mut calls: Vec<ReadCall> = Vec::new();
    loop
        invariant
            orig == script@,
            views_of(items@) + items_of(rem@) == items_of(orig),
            calls@ + events_of(rem@) == events_of(orig),
        decreases rem.len(),
    {
        if rem.len() == 0 {
            proof {
                assert(views_of(items@) + items_of(rem@) =~= views_of(items@));
                assert(calls@ + events_of(rem@) =~= calls@);
            }
            return (items, calls);
        }
        let ghost rem0 = rem@;
        let reply = rem.remove(0);
        proof {
            assert(rem@ =~= rem0.drop_first());
        }
        calls.push(ReadCall::Read);
        match stream_on_read(reply) {
            PullStep::Yield(d) => {
                let ghost items0 = items@;
                let ghost calls0 = calls@;
                items.push(Ok(d));
                proof {
                    lemma_views_push(items0, Ok(d));
                    assert(items_of(rem0) == seq![Ok::<Seq<u8>, u64>(d@)] + items_of(rem@));
                    assert(views_of(items@) + items_of(rem@) =~= views_of(items0) + items_of(
                        rem0,
                    ));
                    assert(events_of(rem0) == seq![ReadCall::Read] + events_of(rem@));
                    assert(calls@ + events_of(rem@) =~= (calls0.drop_last()) + events_of(rem0));
                }
            },
            PullStep::Suspend => {
                let ghost calls0 = calls@;
                calls.push(ReadCall::Subscribe);
                proof {
                    assert(events_of(rem0) == seq![ReadCall::Read, ReadCall::Subscribe]
                        + events_of(rem@));
                    assert(calls@ + events_of(rem@) =~= (calls0.drop_last()) + events_of(rem0));
                }
            },
            PullStep::End => {
                proof {
                    assert(items_of(rem0) =~= Seq::<Result<Seq<u8>, u64>>::empty());
                    assert(views_of(items@) + items_of(rem0) =~= views_of(items@));
                    assert(events_of(rem0) =~= seq![ReadCall::Read]);
                    assert(calls@ =~= (calls@.drop_last()) + events_of(rem0));
                }
                return (items, calls);
            },
            PullStep::YieldError(e) => {
                let ghost items0 = items@;
                items.push(Err(e));
                proof {
                    lemma_views_push(items0, Err(e));
                    assert(items_of(rem0) =~= seq![Err::<Seq<u8>, u64>(e)]);
                    assert(views_of(items@) =~= views_of(items0) + items_of(rem0));
                    assert(events_of(rem0) =~= seq![ReadCall::Read]);
                    assert(calls@ =~= (calls@.drop_last()) + events_of(rem0));
                }
                return (items, calls);
            },
        }
    }
}

/// The first error token in a chunk sequence, if any.
pub open spec fn first_error(items: Seq<Result<Vec<u8>, u64>>) -> Option<u64>
    decreases items.len(),
{
    if items.len() == 0 {
        None
    } else {
        match items.first() {
            Err(e) => Some(e),
            Ok(_) => first_error(items.drop_first()),
        }
    }
}

/// All chunk bytes of a sequence without errors, concatenated in order.
pub open spec fn concat_chunks(items: Seq<Result<Vec<u8>, u64>>) -> Seq<u8>
    decreases items.len(),
{
    if items.len() == 0 {
        Seq::empty()
    } else {
        match items.first() {
            Ok(v) => v@ + concat_chunks(items.drop_first()),
            Err(_) => Seq::empty(),
        }
    }
}

/// Append all of `src` to `dst`.
fn append_bytes(dst: &mut Vec<u8>, src: &Vec<u8>)
    ensures
        final(dst)@ == old(dst)@ + src@,
{
    let mut k: usize = 0;
    while k < src.len()
        invariant
            k <= src.len(),
            dst@ == old(dst)@ + src@.take(k as int),
        decreases src.len() - k,
    {
        dst.push(src[k]);
        proof {
            assert(old(dst)@ + src@.take(k + 1) =~= (old(dst)@ + src@.take(k as int)).push(
                src@[k as int],
            ));
        }
        k = k + 1;
    }
    proof {
        assert(old(dst)@ + src@.take(src@.len() as int) =~= old(dst)@ + src@);
    }
}

/// Drain a whole chunk sequence into one buffer, failing eagerly on the
/// first error element: the result is the concatenation of every chunk when
/// no element is an error, and the first error token otherwise.
pub fn collect_chunks(items: Vec<Result<Vec<u8>, u64>>) -> (r: Result<Vec<u8>, u64>)
    ensures
        first_error(items@) matches Some(e) ==> r == Err::<Vec<u8>, u64>(e),
        first_error(items@) is None ==> (r matches Ok(b) && b@ == concat_chunks(items@)),
        r is Err <==> first_error(items@) is Some,
{
    let ghost orig = items@;
    let mut rem = items;
    let mut out: Vec<u8> = Vec::new();
    loop
        invariant
            orig == items@,
            first_error(orig) == first_error(rem@),
            first_error(rem@) is None ==> out@ + concat_chunks(rem@) == concat_chunks(orig),
        decreases rem.len(),
    {
        if rem.len() == 0 {
            proof {
                assert(out@ + concat_chunks(rem@) =~= out@);
            }
            return Ok(out);
        }
        let ghost rem0 = rem@;
        let item = rem.remove(0);
        proof {
            assert(rem@ =~= rem0.drop_first());
        }
        match item {
            Ok(chunk) => {
                let ghost out0 = out@;
                append_bytes(&mut out, &chunk);
                proof {
                    if first_error(rem@) is None {
                        assert(concat_chunks(rem0) == chunk@ + concat_chunks(rem@));
                        assert(out@ + concat_chunks(rem@) =~= out0 + concat_chunks(rem0));
                    }
                }
            },
            Err(e) => {
                return Err(e);
            },
        }
    }
}

/// An error element is terminal: in any produced chunk sequence, everything
/// before the last element is a chunk, so at most one element is an error
/// and it can only be the last.
pub proof fn lemma_error_terminal(s: Seq<ReadReply>)
    ensures
        forall|i: int|
            0 <= i < items_of(s).len() - 1 ==> (#[trigger] items_of(s)[i]) is Ok,
    decreases s.len(),
{
    if s.len() > 0 {
        lemma_error_terminal(s.drop_first());
    }
}

} // verus!

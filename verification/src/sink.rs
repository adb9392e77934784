//! Push-based, backpressured chunk sink over a writable host stream.
//!
//! The host side offers three non-blocking calls — check the write capacity,
//! write at most that many bytes, flush — plus a subscription that yields a
//! wait handle.  Sending one chunk is a loop: query capacity, write a slice
//! no larger than the reported capacity, and once the whole chunk has been
//! accepted, flush and wait for the flush to be acknowledged.  Zero capacity
//! means suspend until the stream's wait handle fires.  A closed stream is a
//! success if everything offered was already accepted, a failure otherwise.
//!
//! The decision logic is split from the host plumbing: [`sink_on_check`],
//! [`sink_on_write`] and [`sink_on_flush`] map one host reply to the next
//! action, and [`send_chunk`] drives a whole chunk against a recorded script
//! of host replies, returning the transcript of calls it made.

use vstd::prelude::*;

verus! {

/// Failure reported by a host byte stream.
#[derive(Clone, Copy, PartialEq, Eq, Structural, Debug)]
pub enum StreamError {
    /// The peer closed the stream.
    Closed,
    /// The last operation on the stream failed; the payload is the host's
    /// opaque error token, surfaced verbatim.
    LastOperationFailed(u64),
}

/// Progress through one chunk: how many bytes the host has accepted, and
/// whether the final flush has already been issued.
#[derive(Clone, Copy, PartialEq, Eq, Structural, Debug)]
pub struct ChunkProgress {
    /// Bytes of the chunk accepted by the host so far; only ever advances.
    pub offset: usize,
    /// Whether the flush request was issued and acknowledged as submitted.
    pub flushing: bool,
}

/// The next action after a capacity report.
#[derive(Clone, Copy, PartialEq, Eq, Structural, Debug)]
pub enum SinkStep {
    /// Zero capacity: subscribe to the stream's wait handle and suspend.
    Suspend,
    /// Write this many bytes starting at the current offset.
    Write(usize),
    /// The whole chunk is accepted and not yet flushed: issue a flush.
    Flush,
    /// The chunk is complete.
    Complete,
    /// Fail with this stream error.
    Fail(StreamError),
}

/// Decide the next action from one `check-write` reply.
///
/// This is the per-chunk algorithm's branch point: backpressure suspends,
/// capacity drives a bounded write, completion of the byte range leads to the
/// flush step, and a closed stream is benign exactly when the chunk was
/// already fully accepted.
pub fn sink_on_check(
    chunk_len: usize,
    progress: ChunkProgress,
    reply: Result<u64, StreamError>,
) -> (r: SinkStep)
    requires
        progress.offset <= chunk_len,
    ensures
        reply == Result::<u64, StreamError>::Ok(0u64) ==> r == SinkStep::Suspend,
        reply matches Ok(cap) ==> {
            &&& (cap > 0 && progress.offset == chunk_len && progress.flushing) ==> r
                == SinkStep::Complete
            &&& (cap > 0 && progress.offset == chunk_len && !progress.flushing) ==> r
                == SinkStep::Flush
            &&& (cap > 0 && progress.offset < chunk_len) ==> r == SinkStep::Write(
                write_amount(chunk_len as nat, progress.offset as nat, cap as nat) as usize,
            ) && 1 <= write_amount(chunk_len as nat, progress.offset as nat, cap as nat) <= cap
                && progress.offset + write_amount(
                chunk_len as nat,
                progress.offset as nat,
                cap as nat,
            ) <= chunk_len
        },
        reply == Result::<u64, StreamError>::Err(StreamError::Closed) ==> r == (
        if progress.offset == chunk_len {
            SinkStep::Complete
        } else {
            SinkStep::Fail(StreamError::Closed)
        }),
        reply matches Err(e) ==> (e matches StreamError::LastOperationFailed(_) ==> r
            == SinkStep::Fail(e)),
{
    match reply {
        Ok(cap) => {
            if cap == 0 {
                SinkStep::Suspend
            } else if progress.offset == chunk_len {
                if progress.flushing {
                    SinkStep::Complete
                } else {
                    SinkStep::Flush
                }
            } else {
                let remaining = chunk_len - progress.offset;
                let n: usize = if cap < remaining as u64 {
                    cap as usize
                } else {
                    remaining
                };
                SinkStep::Write(n)
            }
        },
        Err(StreamError::Closed) => {
            if progress.offset == chunk_len {
                SinkStep::Complete
            } else {
                SinkStep::Fail(StreamError::Closed)
            }
        },
        Err(e) => SinkStep::Fail(e),
    }
}

/// How many bytes one write transfers: the reported capacity, clipped to what
/// is left of the chunk.
pub open spec fn write_amount(chunk_len: nat, offset: nat, cap: nat) -> nat {
    if cap < chunk_len - offset {
        cap
    } else {
        (chunk_len - offset) as nat
    }
}

/// Fold a write reply into the progress: on success the offset advances by
/// exactly the written count; on failure the chunk fails with that error.
pub fn sink_on_write(
    chunk_len: usize,
    progress: ChunkProgress,
    written: usize,
    reply: Result<(), StreamError>,
) -> (r: Result<ChunkProgress, StreamError>)
    requires
        progress.offset + written <= chunk_len,
    ensures
        reply is Ok ==> r == Ok::<ChunkProgress, StreamError>(ChunkProgress {
            offset: (progress.offset + written) as usize,
            flushing: progress.flushing,
        }),
        reply matches Err(e) ==> r == Err::<ChunkProgress, StreamError>(e),
        r is Err <==> reply is Err,
{
    match reply {
        Ok(()) => Ok(ChunkProgress { offset: progress.offset + written, flushing: progress.flushing }),
        Err(e) => Err(e),
    }
}

/// What follows a flush request.
#[derive(Clone, Copy, PartialEq, Eq, Structural, Debug)]
pub enum FlushStep {
    /// The flush was accepted: go back to the capacity check and treat
    /// further backpressure like write backpressure.
    Continue,
    /// The chunk is complete.
    Complete,
    /// Fail with this stream error.
    Fail(StreamError),
}

/// The next action after issuing a flush: an accepted flush marks the chunk
/// as flushing (its completion is then observed through the next capacity
/// check), a close at this point is a success since every byte was already
/// accepted, and any other error fails the chunk.
pub fn sink_on_flush(progress: ChunkProgress, reply: Result<(), StreamError>) -> (r: (
    ChunkProgress,
    FlushStep,
))
    ensures
        reply is Ok ==> r.0 == (ChunkProgress { offset: progress.offset, flushing: true })
            && r.1 == FlushStep::Continue,
        reply == Result::<(), StreamError>::Err(StreamError::Closed) ==> r.0 == progress && r.1
            == FlushStep::Complete,
        reply matches Err(e) ==> (e != StreamError::Closed ==> r.0 == progress && r.1
            == FlushStep::Fail(e)),
{
    match reply {
        Ok(()) => (ChunkProgress { offset: progress.offset, flushing: true }, FlushStep::Continue),
        Err(StreamError::Closed) => (progress, FlushStep::Complete),
        Err(e) => (progress, FlushStep::Fail(e)),
    }
}

/// One host call made while sending a chunk, together with the host's reply.
/// A transcript of these records everything the sink did to the stream.
#[derive(PartialEq, Eq, Debug)]
pub enum SinkEvent {
    /// `check-write` was called and reported this capacity or error.
    Check(Result<u64, StreamError>),
    /// These bytes were handed to `write`, which replied so.
    Write(Vec<u8>, Result<(), StreamError>),
    /// `flush` was called and replied so.
    Flush(Result<(), StreamError>),
    /// The stream's wait handle was subscribed to and the send suspended.
    Subscribe,
}

/// How one whole chunk send ended.
#[derive(Clone, Copy, PartialEq, Eq, Structural, Debug)]
pub enum SendOutcome {
    /// Every byte was accepted and the chunk completed.
    Sent,
    /// The send failed with this stream error.
    Failed(StreamError),
    /// The reply script ran out before the chunk completed; a live host
    /// always answers, so a driver never sees this.
    Starved,
}

/// The bytes one event pushed into the stream.
pub open spec fn event_bytes(e: SinkEvent) -> Seq<u8> {
    match e {
        SinkEvent::Write(d, _) => d@,
        _ => Seq::empty(),
    }
}

/// All bytes a transcript pushed into the stream, in order.
pub open spec fn written(t: Seq<SinkEvent>) -> Seq<u8>
    decreases t.len(),
{
    if t.len() == 0 {
        Seq::empty()
    } else {
        written(t.drop_last()) + event_bytes(t.last())
    }
}

/// The capacity replies a transcript consumed, in order.
pub open spec fn check_replies(t: Seq<SinkEvent>) -> Seq<Result<u64, StreamError>>
    decreases t.len(),
{
    if t.len() == 0 {
        Seq::empty()
    } else {
        check_replies(t.drop_last()) + (match t.last() {
            SinkEvent::Check(r) => seq![r],
            _ => Seq::empty(),
        })
    }
}

/// The write replies a transcript consumed, in order.
pub open spec fn write_replies(t: Seq<SinkEvent>) -> Seq<Result<(), StreamError>>
    decreases t.len(),
{
    if t.len() == 0 {
        Seq::empty()
    } else {
        write_replies(t.drop_last()) + (match t.last() {
            SinkEvent::Write(_, r) => seq![r],
            _ => Seq::empty(),
        })
    }
}

/// The flush replies a transcript consumed, in order.
pub open spec fn flush_replies(t: Seq<SinkEvent>) -> Seq<Result<(), StreamError>>
    decreases t.len(),
{
    if t.len() == 0 {
        Seq::empty()
    } else {
        flush_replies(t.drop_last()) + (match t.last() {
            SinkEvent::Flush(r) => seq![r],
            _ => Seq::empty(),
        })
    }
}

/// Appending one event extends each history fold in the evident way, and
/// leaves every proper prefix of the transcript unchanged.
proof fn lemma_history_push(t: Seq<SinkEvent>, e: SinkEvent)
    ensures
        e matches SinkEvent::Write(d, wr) ==> written(t.push(e)) == written(t) + d@
            && write_replies(t.push(e)) == write_replies(t).push(wr),
        !(e is Write) ==> written(t.push(e)) == written(t) && write_replies(t.push(e))
            == write_replies(t),
        e matches SinkEvent::Check(c) ==> check_replies(t.push(e)) == check_replies(t).push(c),
        !(e is Check) ==> check_replies(t.push(e)) == check_replies(t),
        e matches SinkEvent::Flush(f) ==> flush_replies(t.push(e)) == flush_replies(t).push(f),
        !(e is Flush) ==> flush_replies(t.push(e)) == flush_replies(t),
        forall|j: int| 0 <= j <= t.len() ==> t.push(e).take(j) == t.take(j),
{
    assert(t.push(e).drop_last() =~= t);
    assert(t.push(e).last() == e);
    match e {
        SinkEvent::Write(d, wr) => {
            assert(write_replies(t) + seq![wr] =~= write_replies(t).push(wr));
        },
        SinkEvent::Check(c) => {
            assert(written(t) + Seq::<u8>::empty() =~= written(t));
            assert(check_replies(t) + seq![c] =~= check_replies(t).push(c));
        },
        SinkEvent::Flush(f) => {
            assert(written(t) + Seq::<u8>::empty() =~= written(t));
            assert(flush_replies(t) + seq![f] =~= flush_replies(t).push(f));
        },
        SinkEvent::Subscribe => {
            assert(written(t) + Seq::<u8>::empty() =~= written(t));
        },
    }
    assert(written(t) + Seq::<u8>::empty() =~= written(t));
    assert(check_replies(t) + Seq::<Result<u64, StreamError>>::empty() =~= check_replies(t));
    assert(write_replies(t) + Seq::<Result<(), StreamError>>::empty() =~= write_replies(t));
    assert(flush_replies(t) + Seq::<Result<(), StreamError>>::empty() =~= flush_replies(t));
    assert forall|j: int| 0 <= j <= t.len() implies t.push(e).take(j) == t.take(j) by {
        assert(t.push(e).take(j) =~= t.take(j));
    }
}

/// An event that lets the send go on: a capacity report, an accepted write or
/// flush, or a suspension.  Anything else ends the chunk.
pub open spec fn nonterminal(e: SinkEvent) -> bool {
    match e {
        SinkEvent::Check(r) => r is Ok,
        SinkEvent::Write(_, r) => r is Ok,
        SinkEvent::Flush(r) => r is Ok,
        SinkEvent::Subscribe => true,
    }
}

/// Structural well-formedness of a send transcript:
/// - every write directly follows the capacity report that allowed it, hands
///   over at least one byte and never more than that capacity;
/// - the sink subscribes exactly after a zero-capacity report, and suspends
///   every time one arrives before the end of the transcript;
/// - a flush is issued only once every byte of the chunk has been accepted.
#[verifier::opaque]
pub open spec fn wf_transcript(chunk: Seq<u8>, t: Seq<SinkEvent>) -> bool {
    &&& forall|i: int|
        0 <= i < t.len() ==> (#[trigger] t[i] matches SinkEvent::Write(d, _) ==> 0 < i && (t[i
            - 1] matches SinkEvent::Check(c) && c matches Ok(cap) && 1 <= d@.len() <= cap))
    &&& forall|i: int|
        0 <= i < t.len() ==> ((#[trigger] t[i] is Subscribe) <==> (0 < i && t[i - 1]
            == SinkEvent::Check(Ok(0u64))))
    &&& forall|i: int|
        0 <= i < t.len() - 1 ==> (#[trigger] t[i] == SinkEvent::Check(Ok(0u64)) ==> t[i + 1]
            is Subscribe)
    &&& forall|i: int|
        0 <= i < t.len() ==> (#[trigger] t[i] is Flush ==> written(t.take(i)) == chunk)
    &&& forall|i: int, j: int|
        0 <= i < j < t.len() ==> !((#[trigger] t[i] is Flush) && (#[trigger] t[j] is Flush))
}

/// How a terminal capacity report determines the outcome: a close is benign
/// exactly when the whole chunk was already accepted, any other failure is
/// surfaced verbatim.
pub open spec fn check_terminal(chunk: Seq<u8>, t: Seq<SinkEvent>, o: SendOutcome, e: StreamError) -> bool {
    match e {
        StreamError::Closed => if written(t) == chunk {
            o == SendOutcome::Sent
        } else {
            o == SendOutcome::Failed(StreamError::Closed)
        },
        StreamError::LastOperationFailed(_) => o == SendOutcome::Failed(e),
    }
}

/// Each event either lets the send go on, or is the last event of the
/// transcript and determines the outcome.
pub open spec fn event_ok_at(chunk: Seq<u8>, t: Seq<SinkEvent>, o: SendOutcome, i: int) -> bool {
    match t[i] {
        SinkEvent::Check(r) => r matches Err(e) ==> i == t.len() - 1 && check_terminal(
            chunk,
            t,
            o,
            e,
        ),
        SinkEvent::Write(_, r) => r matches Err(e) ==> i == t.len() - 1 && o
            == SendOutcome::Failed(e),
        SinkEvent::Flush(r) => r matches Err(e) ==> i == t.len() - 1 && (if e
            == StreamError::Closed {
            o == SendOutcome::Sent
        } else {
            o == SendOutcome::Failed(e)
        }),
        SinkEvent::Subscribe => true,
    }
}

/// Errors end the transcript, and the one that does so fixes the outcome.
#[verifier::opaque]
pub open spec fn events_ok(chunk: Seq<u8>, t: Seq<SinkEvent>, o: SendOutcome) -> bool {
    forall|i: int| 0 <= i < t.len() ==> #[trigger] event_ok_at(chunk, t, o, i)
}

/// Pushing a capacity report or a flush onto a well-formed transcript keeps
/// it well-formed, provided the transcript does not end on an unanswered
/// zero-capacity report and a flush comes only when the chunk is complete.
proof fn lemma_wf_extend_plain(chunk: Seq<u8>, t: Seq<SinkEvent>, e: SinkEvent)
    requires
        wf_transcript(chunk, t),
        !(e is Write),
        !(e is Subscribe),
        e is Flush ==> written(t) == chunk && (forall|i: int|
            0 <= i < t.len() ==> !((#[trigger] t[i]) is Flush)),
        t.len() > 0 ==> t.last() != SinkEvent::Check(Ok(0u64)),
    ensures
        wf_transcript(chunk, t.push(e)),
{
    reveal(wf_transcript);
    let t2 = t.push(e);
    lemma_history_push(t, e);
    assert forall|i: int| 0 <= i < t2.len() implies (#[trigger] t2[i] matches SinkEvent::Write(d, _)
        ==> 0 < i && (t2[i - 1] matches SinkEvent::Check(c) && c matches Ok(cap) && 1 <= d@.len()
        <= cap)) by {
        if i < t.len() {
            assert(t2[i] == t[i]);
            if i > 0 {
                assert(t2[i - 1] == t[i - 1]);
            }
        }
    }
    assert forall|i: int| 0 <= i < t2.len() implies ((#[trigger] t2[i] is Subscribe) <==> (0 < i
        && t2[i - 1] == SinkEvent::Check(Ok(0u64)))) by {
        if i < t.len() {
            assert(t2[i] == t[i]);
            if i > 0 {
                assert(t2[i - 1] == t[i - 1]);
            }
        } else {
            assert(i == t.len());
            if i > 0 {
                assert(t2[i - 1] == t.last());
            }
        }
    }
    assert forall|i: int| 0 <= i < t2.len() - 1 implies (#[trigger] t2[i] == SinkEvent::Check(
        Ok(0u64),
    ) ==> t2[i + 1] is Subscribe) by {
        if i < t.len() - 1 {
            assert(t2[i] == t[i]);
            assert(t2[i + 1] == t[i + 1]);
        } else {
            assert(i == t.len() - 1);
            if t.len() > 0 {
                assert(t2[i] == t.last());
            }
        }
    }
    assert forall|i: int| 0 <= i < t2.len() implies (#[trigger] t2[i] is Flush ==> written(
        t2.take(i),
    ) == chunk) by {
        if i < t.len() {
            assert(t2[i] == t[i]);
            assert(t2.take(i) == t.take(i));
        } else {
            assert(t2.take(i) =~= t);
        }
    }
    assert forall|i: int, j: int| 0 <= i < j < t2.len() implies !((#[trigger] t2[i] is Flush) && (
    #[trigger] t2[j] is Flush)) by {
        if j < t.len() {
            assert(t2[i] == t[i]);
            assert(t2[j] == t[j]);
        } else {
            assert(t2[i] == t[i]);
        }
    }
}

/// Pushing a subscription right after the zero-capacity report that caused
/// it keeps a transcript well-formed.
proof fn lemma_wf_extend_subscribe(chunk: Seq<u8>, t: Seq<SinkEvent>)
    requires
        wf_transcript(chunk, t),
        t.len() > 0,
        t.last() == SinkEvent::Check(Ok(0u64)),
    ensures
        wf_transcript(chunk, t.push(SinkEvent::Subscribe)),
{
    reveal(wf_transcript);
    let e = SinkEvent::Subscribe;
    let t2 = t.push(e);
    lemma_history_push(t, e);
    assert forall|i: int| 0 <= i < t2.len() implies (#[trigger] t2[i] matches SinkEvent::Write(d, _)
        ==> 0 < i && (t2[i - 1] matches SinkEvent::Check(c) && c matches Ok(cap) && 1 <= d@.len()
        <= cap)) by {
        if i < t.len() {
            assert(t2[i] == t[i]);
            if i > 0 {
                assert(t2[i - 1] == t[i - 1]);
            }
        }
    }
    assert forall|i: int| 0 <= i < t2.len() implies ((#[trigger] t2[i] is Subscribe) <==> (0 < i
        && t2[i - 1] == SinkEvent::Check(Ok(0u64)))) by {
        if i < t.len() {
            assert(t2[i] == t[i]);
            if i > 0 {
                assert(t2[i - 1] == t[i - 1]);
            }
        } else {
            assert(t2[i - 1] == t.last());
        }
    }
    assert forall|i: int| 0 <= i < t2.len() - 1 implies (#[trigger] t2[i] == SinkEvent::Check(
        Ok(0u64),
    ) ==> t2[i + 1] is Subscribe) by {
        if i < t.len() - 1 {
            assert(t2[i] == t[i]);
            assert(t2[i + 1] == t[i + 1]);
        } else {
            assert(i == t.len() - 1);
            assert(t2[i + 1] == e);
        }
    }
    assert forall|i: int| 0 <= i < t2.len() implies (#[trigger] t2[i] is Flush ==> written(
        t2.take(i),
    ) == chunk) by {
        if i < t.len() {
            assert(t2[i] == t[i]);
            assert(t2.take(i) == t.take(i));
        } else {
            assert(!(t2[i] is Flush));
        }
    }
    assert forall|i: int, j: int| 0 <= i < j < t2.len() implies !((#[trigger] t2[i] is Flush) && (
    #[trigger] t2[j] is Flush)) by {
        if j < t.len() {
            assert(t2[i] == t[i]);
            assert(t2[j] == t[j]);
        } else {
            assert(!(t2[j] is Flush));
        }
    }
}

/// Pushing a write directly after the capacity report that allowed it keeps
/// a transcript well-formed.
proof fn lemma_wf_extend_write(
    chunk: Seq<u8>,
    t: Seq<SinkEvent>,
    w: Vec<u8>,
    wr: Result<(), StreamError>,
    cap: u64,
)
    requires
        wf_transcript(chunk, t),
        t.len() > 0,
        t.last() == SinkEvent::Check(Ok(cap)),
        cap > 0,
        1 <= w@.len() <= cap,
    ensures
        wf_transcript(chunk, t.push(SinkEvent::Write(w, wr))),
{
    reveal(wf_transcript);
    let e = SinkEvent::Write(w, wr);
    let t2 = t.push(e);
    lemma_history_push(t, e);
    assert forall|i: int| 0 <= i < t2.len() implies (#[trigger] t2[i] matches SinkEvent::Write(
        dd,
        _,
    ) ==> 0 < i && (t2[i - 1] matches SinkEvent::Check(c) && c matches Ok(capp) && 1 <= dd@.len()
        <= capp)) by {
        if i < t.len() {
            assert(t2[i] == t[i]);
            if i > 0 {
                assert(t2[i - 1] == t[i - 1]);
            }
        } else {
            assert(t2[i - 1] == t.last());
        }
    }
    assert forall|i: int| 0 <= i < t2.len() implies ((#[trigger] t2[i] is Subscribe) <==> (0 < i
        && t2[i - 1] == SinkEvent::Check(Ok(0u64)))) by {
        if i < t.len() {
            assert(t2[i] == t[i]);
            if i > 0 {
                assert(t2[i - 1] == t[i - 1]);
            }
        } else {
            assert(t2[i - 1] == t.last());
        }
    }
    assert forall|i: int| 0 <= i < t2.len() - 1 implies (#[trigger] t2[i] == SinkEvent::Check(
        Ok(0u64),
    ) ==> t2[i + 1] is Subscribe) by {
        if i < t.len() - 1 {
            assert(t2[i] == t[i]);
            assert(t2[i + 1] == t[i + 1]);
        } else {
            assert(i == t.len() - 1);
            assert(t2[i] == t.last());
        }
    }
    assert forall|i: int| 0 <= i < t2.len() implies (#[trigger] t2[i] is Flush ==> written(
        t2.take(i),
    ) == chunk) by {
        if i < t.len() {
            assert(t2[i] == t[i]);
            assert(t2.take(i) == t.take(i));
        } else {
            assert(!(t2[i] is Flush));
        }
    }
    assert forall|i: int, j: int| 0 <= i < j < t2.len() implies !((#[trigger] t2[i] is Flush) && (
    #[trigger] t2[j] is Flush)) by {
        if j < t.len() {
            assert(t2[i] == t[i]);
            assert(t2[j] == t[j]);
        } else {
            assert(!(t2[j] is Flush));
        }
    }
}

/// A transcript of events that all let the send go on satisfies
/// [`events_ok`] for any outcome.
proof fn lemma_events_ok_nonterminal(chunk: Seq<u8>, t: Seq<SinkEvent>, o: SendOutcome)
    requires
        forall|i: int| 0 <= i < t.len() ==> nonterminal(#[trigger] t[i]),
    ensures
        events_ok(chunk, t, o),
{
    reveal(events_ok);
    assert forall|i: int| 0 <= i < t.len() implies #[trigger] event_ok_at(chunk, t, o, i) by {
        assert(nonterminal(t[i]));
    }
}

/// Appending one event to a transcript of events that let the send go on
/// satisfies [`events_ok`] provided the new final event does.
proof fn lemma_events_ok_terminal(chunk: Seq<u8>, t0: Seq<SinkEvent>, e: SinkEvent, o: SendOutcome)
    requires
        forall|i: int| 0 <= i < t0.len() ==> nonterminal(#[trigger] t0[i]),
        event_ok_at(chunk, t0.push(e), o, t0.len() as int),
    ensures
        events_ok(chunk, t0.push(e), o),
{
    reveal(events_ok);
    let t = t0.push(e);
    assert forall|i: int| 0 <= i < t.len() implies #[trigger] event_ok_at(chunk, t, o, i) by {
        if i < t0.len() {
            assert(t[i] == t0[i]);
            assert(nonterminal(t[i]));
        }
    }
}

/// Appending an event that lets the send go on keeps the whole transcript so.
proof fn lemma_nonterminal_push(t0: Seq<SinkEvent>, e: SinkEvent)
    requires
        forall|i: int| 0 <= i < t0.len() ==> nonterminal(#[trigger] t0[i]),
        nonterminal(e),
    ensures
        forall|i: int| 0 <= i < t0.push(e).len() ==> nonterminal(#[trigger] t0.push(e)[i]),
{
    let t = t0.push(e);
    assert forall|i: int| 0 <= i < t.len() implies nonterminal(#[trigger] t[i]) by {
        if i < t0.len() {
            assert(t[i] == t0[i]);
        }
    }
}

/// A recorded sequence of host replies for one writable stream: what
/// `check-write`, `write` and `flush` answered, in the order asked.
pub struct WriterScript {
    /// Replies to `check-write`, consumed one per capacity query.
    pub checks: Vec<Result<u64, StreamError>>,
    /// Replies to `write`, consumed one per write call.
    pub writes: Vec<Result<(), StreamError>>,
    /// Replies to `flush`, consumed one per flush call.
    pub flushes: Vec<Result<(), StreamError>>,
}

/// Copy `count` bytes of `src` starting at `start` into a fresh vector.
fn copy_range(src: &Vec<u8>, start: usize, count: usize) -> (out: Vec<u8>)
    requires
        start + count <= src.len(),
    ensures
        out@ == src@.subrange(start as int, start + count),
{
    let mut out: Vec<u8> = Vec::new();
    let mut k: usize = 0;
    while k < count
        invariant
            start + count <= src.len(),
            k <= count,
            out@ == src@.subrange(start as int, start + k),
        decreases count - k,
    {
        out.push(src[start + k]);
        assert(src@.subrange(start as int, start + k + 1) =~= src@.subrange(
            start as int,
            start + k,
        ).push(src@[start + k]));
        k = k + 1;
    }
    out
}

/// Everything [`send_chunk`] promises of its outcome `o` and transcript `t`
/// against the chunk and the three reply scripts:
/// - the bytes handed to `write`, concatenated in order, are a prefix of the
///   chunk, and are the whole chunk whenever the outcome is success;
/// - a zero-length chunk never issues a write;
/// - the transcript is well-formed ([`wf_transcript`]): writes directly
///   follow and respect their capacity reports, suspensions pair with
///   zero-capacity reports, the single flush comes only after the last byte;
/// - host errors terminate the transcript and fix the outcome
///   ([`events_ok`]): a close after the full chunk is success, a close before
///   is failure, and any other failure is surfaced verbatim;
/// - replies are consumed from each script in order, and success or failure
///   is witnessed by the final event, while starvation only happens once a
///   script is exhausted.
pub open spec fn send_chunk_post(
    chunk: Seq<u8>,
    checks: Seq<Result<u64, StreamError>>,
    writes: Seq<Result<(), StreamError>>,
    flushes: Seq<Result<(), StreamError>>,
    o: SendOutcome,
    t: Seq<SinkEvent>,
) -> bool {
    &&& written(t).len() <= chunk.len()
    &&& written(t) == chunk.take(written(t).len() as int)
    &&& (o == SendOutcome::Sent ==> written(t) == chunk)
    &&& (chunk.len() == 0 ==> forall|i: int| 0 <= i < t.len() ==> !((#[trigger] t[i]) is Write))
    &&& wf_transcript(chunk, t)
    &&& events_ok(chunk, t, o)
    &&& check_replies(t) == checks.take(check_replies(t).len() as int)
    &&& write_replies(t) == writes.take(write_replies(t).len() as int)
    &&& flush_replies(t) == flushes.take(flush_replies(t).len() as int)
    &&& (o == SendOutcome::Sent ==> t.len() > 0 && ((t.last() matches SinkEvent::Check(c) && (c
        matches Ok(cap) && cap > 0 || c == Err::<u64, StreamError>(StreamError::Closed)))
        || t.last() == SinkEvent::Flush(Err(StreamError::Closed))))
    &&& (o == SendOutcome::Sent && (t.last() matches SinkEvent::Check(c) && c is Ok)
        ==> exists|j: int|
        0 <= j < t.len() && ((#[trigger] t[j]) matches SinkEvent::Flush(fr) && fr is Ok))
    &&& (o matches SendOutcome::Failed(e) ==> t.len() > 0 && (t.last() == SinkEvent::Check(
        Err(e),
    ) || (t.last() matches SinkEvent::Write(_, r2) && r2 == Err::<(), StreamError>(e))
        || t.last() == SinkEvent::Flush(Err(e))))
    &&& (o == SendOutcome::Starved ==> {
        ||| check_replies(t).len() == checks.len()
        ||| (t.len() > 0 && (t.last() matches SinkEvent::Check(c) && c matches Ok(cap) && cap > 0)
            && written(t).len() < chunk.len() && write_replies(t).len() == writes.len())
        ||| (t.len() > 0 && (t.last() matches SinkEvent::Check(c) && c matches Ok(cap) && cap > 0)
            && written(t) == chunk && flush_replies(t).len() == flushes.len())
    })
}

/// Send one chunk against a recorded script of host replies, returning how
/// the send ended and the transcript of host calls it made.
///
/// This is the per-chunk algorithm of the output sink run to completion: the
/// loop queries capacity, suspends on backpressure, writes bounded slices in
/// order, and flushes once after the last byte.  [`send_chunk_post`] pins the
/// whole behaviour down.
#[verifier::rlimit(100)]
pub fn send_chunk(chunk: &Vec<u8>, script: &WriterScript) -> (r: (SendOutcome, Vec<SinkEvent>))
    ensures
        send_chunk_post(chunk@, script.checks@, script.writes@, script.flushes@, r.0, r.1@),
{
    let mut t: Vec<SinkEvent> = Vec::new();
    let mut progress = ChunkProgress { offset: 0, flushing: false };
    proof {
        assert(wf_transcript(chunk@, t@)) by { reveal(wf_transcript); }
    }
    let mut ci: usize = 0;
    let mut wi: usize = 0;
    let mut fi: usize = 0;
    loop
        invariant
            progress.offset <= chunk.len(),
            written(t@) == chunk@.take(progress.offset as int),
            wf_transcript(chunk@, t@),
            forall|i: int| 0 <= i < t@.len() ==> nonterminal(#[trigger] t@[i]),
            ci <= script.checks.len(),
            wi <= script.writes.len(),
            fi <= script.flushes.len(),
            check_replies(t@) == script.checks@.take(ci as int),
            write_replies(t@) == script.writes@.take(wi as int),
            flush_replies(t@) == script.flushes@.take(fi as int),
            progress.flushing ==> progress.offset == chunk.len(),
            progress.flushing ==> exists|j: int|
                0 <= j < t@.len() && ((#[trigger] t@[j]) matches SinkEvent::Flush(fr) && fr
                    is Ok),
            !progress.flushing ==> forall|i: int|
                0 <= i < t@.len() ==> !((#[trigger] t@[i]) is Flush),
            t@.len() > 0 ==> t@.last() != SinkEvent::Check(Ok(0u64)),
            chunk@.len() == 0 ==> forall|i: int|
                0 <= i < t@.len() ==> !((#[trigger] t@[i]) is Write),
        decreases script.checks.len() - ci,
    {
        if ci == script.checks.len() {
            proof {
                lemma_events_ok_nonterminal(chunk@, t@, SendOutcome::Starved);
                assert(written(t@).len() == progress.offset);
            }
            return (SendOutcome::Starved, t);
        }
        let reply = script.checks[ci];
        ci = ci + 1;
        let ghost t0 = t@;
        t.push(SinkEvent::Check(reply));
        proof {
            lemma_history_push(t0, SinkEvent::Check(reply));
            lemma_wf_extend_plain(chunk@, t0, SinkEvent::Check(reply));
            assert(check_replies(t0).push(reply) =~= script.checks@.take(ci as int));
        }
        let step = sink_on_check(chunk.len(), progress, reply);
        match step {
            SinkStep::Suspend => {
                let ghost t1 = t@;
                t.push(SinkEvent::Subscribe);
                proof {
                    assert(reply == Result::<u64, StreamError>::Ok(0u64));
                    lemma_history_push(t1, SinkEvent::Subscribe);
                    lemma_wf_extend_subscribe(chunk@, t1);
                    lemma_nonterminal_push(t0, SinkEvent::Check(reply));
                    lemma_nonterminal_push(t1, SinkEvent::Subscribe);
                    if progress.flushing {
                        let j = choose|j: int|
                            0 <= j < t0.len() && ((#[trigger] t0[j]) matches SinkEvent::Flush(fr)
                                && fr is Ok);
                        assert(t@[j] == t0[j]);
                        assert(t@[j] matches SinkEvent::Flush(fr) && fr is Ok);
                    }
                }
            },
            SinkStep::Complete => {
                proof {
                    assert(progress.offset == chunk.len());
                    assert(chunk@.take(chunk@.len() as int) =~= chunk@);
                    assert(event_ok_at(chunk@, t@, SendOutcome::Sent, t0.len() as int));
                    lemma_events_ok_terminal(chunk@, t0, SinkEvent::Check(reply), SendOutcome::Sent);
                    if reply is Ok {
                        assert(progress.flushing);
                        let j = choose|j: int|
                            0 <= j < t0.len() && ((#[trigger] t0[j]) matches SinkEvent::Flush(fr)
                                && fr is Ok);
                        assert(t@[j] == t0[j]);
                        assert(t@[j] matches SinkEvent::Flush(fr) && fr is Ok);
                    }
                }
                return (SendOutcome::Sent, t);
            },
            SinkStep::Fail(e) => {
                proof {
                    if e == StreamError::Closed {
                        assert(written(t@).len() < chunk@.len());
                    }
                    assert(event_ok_at(chunk@, t@, SendOutcome::Failed(e), t0.len() as int));
                    lemma_events_ok_terminal(
                        chunk@,
                        t0,
                        SinkEvent::Check(reply),
                        SendOutcome::Failed(e),
                    );
                }
                return (SendOutcome::Failed(e), t);
            },
            SinkStep::Flush => {
                if fi == script.flushes.len() {
                    proof {
                        lemma_nonterminal_push(t0, SinkEvent::Check(reply));
                        lemma_events_ok_nonterminal(chunk@, t@, SendOutcome::Starved);
                        assert(chunk@.take(chunk@.len() as int) =~= chunk@);
                        assert(t@.last() == SinkEvent::Check(reply));
                    }
                    return (SendOutcome::Starved, t);
                }
                let freply = script.flushes[fi];
                fi = fi + 1;
                let ghost t1 = t@;
                t.push(SinkEvent::Flush(freply));
                proof {
                    assert(progress.offset == chunk.len());
                    assert(chunk@.take(chunk@.len() as int) =~= chunk@);
                    lemma_history_push(t1, SinkEvent::Flush(freply));
                    lemma_wf_extend_plain(chunk@, t1, SinkEvent::Flush(freply));
                    assert(flush_replies(t1).push(freply) =~= script.flushes@.take(fi as int));
                    lemma_nonterminal_push(t0, SinkEvent::Check(reply));
                }
                let flush_result = sink_on_flush(progress, freply);
                progress = flush_result.0;
                match flush_result.1 {
                    FlushStep::Continue => {
                        proof {
                            lemma_nonterminal_push(t1, SinkEvent::Flush(freply));
                            assert(t@[t@.len() - 1] matches SinkEvent::Flush(fr) && fr is Ok);
                        }
                    },
                    FlushStep::Complete => {
                        proof {
                            assert(event_ok_at(chunk@, t@, SendOutcome::Sent, t1.len() as int));
                            lemma_events_ok_terminal(
                                chunk@,
                                t1,
                                SinkEvent::Flush(freply),
                                SendOutcome::Sent,
                            );
                        }
                        return (SendOutcome::Sent, t);
                    },
                    FlushStep::Fail(e) => {
                        proof {
                            assert(event_ok_at(chunk@, t@, SendOutcome::Failed(e), t1.len() as int));
                            lemma_events_ok_terminal(
                                chunk@,
                                t1,
                                SinkEvent::Flush(freply),
                                SendOutcome::Failed(e),
                            );
                        }
                        return (SendOutcome::Failed(e), t);
                    },
                }
            },
            SinkStep::Write(n) => {
                if wi == script.writes.len() {
                    proof {
                        lemma_nonterminal_push(t0, SinkEvent::Check(reply));
                        lemma_events_ok_nonterminal(chunk@, t@, SendOutcome::Starved);
                        assert(t@.last() == SinkEvent::Check(reply));
                        assert(written(t@).len() < chunk@.len());
                    }
                    return (SendOutcome::Starved, t);
                }
                let wreply = script.writes[wi];
                wi = wi + 1;
                let data = copy_range(chunk, progress.offset, n);
                let ghost t1 = t@;
                let ghost dv = data@;
                t.push(SinkEvent::Write(data, wreply));
                proof {
                    lemma_history_push(t1, SinkEvent::Write(data, wreply));
                    let cap = reply->Ok_0;
                    assert(1 <= dv.len() <= cap);
                    lemma_wf_extend_write(chunk@, t1, data, wreply, cap);
                    assert(write_replies(t1).push(wreply) =~= script.writes@.take(wi as int));
                    assert(chunk@.take(progress.offset as int) + chunk@.subrange(
                        progress.offset as int,
                        progress.offset + n,
                    ) =~= chunk@.take(progress.offset + n));
                    lemma_nonterminal_push(t0, SinkEvent::Check(reply));
                }
                match sink_on_write(chunk.len(), progress, n, wreply) {
                    Ok(p2) => {
                        progress = p2;
                        proof {
                            lemma_nonterminal_push(t1, SinkEvent::Write(data, wreply));
                            if progress.flushing {
                                let j = choose|j: int|
                                    0 <= j < t1.len() && ((#[trigger] t1[j]) matches
                                        SinkEvent::Flush(fr) && fr is Ok);
                                assert(t@[j] == t1[j]);
                                assert(t@[j] matches SinkEvent::Flush(fr) && fr is Ok);
                            }
                        }
                    },
                    Err(e) => {
                        proof {
                            assert(written(t@) == chunk@.take(progress.offset + n));
                            assert(event_ok_at(chunk@, t@, SendOutcome::Failed(e), t1.len() as int));
                            lemma_events_ok_terminal(
                                chunk@,
                                t1,
                                SinkEvent::Write(data, wreply),
                                SendOutcome::Failed(e),
                            );
                        }
                        return (SendOutcome::Failed(e), t);
                    },
                }
            },
        }
    }
}

} // verus!

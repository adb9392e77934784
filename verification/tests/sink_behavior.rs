use spin_sdk::sink::send_chunk;
use spin_sdk::sink::sink_on_check;
use spin_sdk::sink::ChunkProgress;
use spin_sdk::sink::SendOutcome;
use spin_sdk::sink::SinkEvent;
use spin_sdk::sink::SinkStep;
use spin_sdk::sink::StreamError;
use spin_sdk::sink::WriterScript;

fn script(
    checks: Vec<Result<u64, StreamError>>,
    writes: Vec<Result<(), StreamError>>,
    flushes: Vec<Result<(), StreamError>>,
) -> WriterScript {
    WriterScript { checks, writes, flushes }
}

#[test]
fn writes_split_by_capacity_sum_to_chunk() {
    let chunk: Vec<u8> = vec![1, 2, 3, 4, 5, 6, 7, 8, 9, 10];
    let s = script(
        vec![Ok(4), Ok(4), Ok(4), Ok(1), Ok(1)],
        vec![Ok(()), Ok(()), Ok(())],
        vec![Ok(())],
    );
    let (outcome, transcript) = send_chunk(&chunk, &s);
    assert_eq!(outcome, SendOutcome::Sent);
    assert_eq!(
        transcript,
        vec![
            SinkEvent::Check(Ok(4)),
            SinkEvent::Write(vec![1, 2, 3, 4], Ok(())),
            SinkEvent::Check(Ok(4)),
            SinkEvent::Write(vec![5, 6, 7, 8], Ok(())),
            SinkEvent::Check(Ok(4)),
            SinkEvent::Write(vec![9, 10], Ok(())),
            SinkEvent::Check(Ok(1)),
            SinkEvent::Flush(Ok(())),
            SinkEvent::Check(Ok(1)),
        ]
    );
    let written: usize = transcript
        .iter()
        .map(|e| match e {
            SinkEvent::Write(d, _) => d.len(),
            _ => 0,
        })
        .sum();
    assert_eq!(written, chunk.len());
}

#[test]
fn zero_length_chunk_issues_no_write() {
    let chunk: Vec<u8> = vec![];
    let s = script(vec![Ok(5), Ok(5)], vec![], vec![Ok(())]);
    let (outcome, transcript) = send_chunk(&chunk, &s);
    assert_eq!(outcome, SendOutcome::Sent);
    assert_eq!(
        transcript,
        vec![
            SinkEvent::Check(Ok(5)),
            SinkEvent::Flush(Ok(())),
            SinkEvent::Check(Ok(5)),
        ]
    );
}

#[test]
fn close_after_full_write_is_success() {
    let chunk: Vec<u8> = vec![7];
    let s = script(vec![Ok(1), Err(StreamError::Closed)], vec![Ok(())], vec![]);
    let (outcome, transcript) = send_chunk(&chunk, &s);
    assert_eq!(outcome, SendOutcome::Sent);
    assert_eq!(
        transcript,
        vec![
            SinkEvent::Check(Ok(1)),
            SinkEvent::Write(vec![7], Ok(())),
            SinkEvent::Check(Err(StreamError::Closed)),
        ]
    );
}

#[test]
fn close_before_full_write_is_failure() {
    let chunk: Vec<u8> = vec![7, 8];
    let s = script(vec![Ok(1), Err(StreamError::Closed)], vec![Ok(())], vec![]);
    let (outcome, transcript) = send_chunk(&chunk, &s);
    assert_eq!(outcome, SendOutcome::Failed(StreamError::Closed));
    assert_eq!(
        transcript,
        vec![
            SinkEvent::Check(Ok(1)),
            SinkEvent::Write(vec![7], Ok(())),
            SinkEvent::Check(Err(StreamError::Closed)),
        ]
    );
}

#[test]
fn zero_capacity_subscribes_and_suspends() {
    let chunk: Vec<u8> = vec![1];
    let s = script(
        vec![Ok(0), Ok(1), Ok(1), Ok(1)],
        vec![Ok(())],
        vec![Ok(())],
    );
    let (outcome, transcript) = send_chunk(&chunk, &s);
    assert_eq!(outcome, SendOutcome::Sent);
    assert_eq!(
        transcript,
        vec![
            SinkEvent::Check(Ok(0)),
            SinkEvent::Subscribe,
            SinkEvent::Check(Ok(1)),
            SinkEvent::Write(vec![1], Ok(())),
            SinkEvent::Check(Ok(1)),
            SinkEvent::Flush(Ok(())),
            SinkEvent::Check(Ok(1)),
        ]
    );
}

#[test]
fn write_failure_is_surfaced_verbatim() {
    let chunk: Vec<u8> = vec![1];
    let s = script(
        vec![Ok(1)],
        vec![Err(StreamError::LastOperationFailed(7))],
        vec![],
    );
    let (outcome, _) = send_chunk(&chunk, &s);
    assert_eq!(outcome, SendOutcome::Failed(StreamError::LastOperationFailed(7)));
}

#[test]
fn check_failure_is_surfaced_verbatim() {
    let chunk: Vec<u8> = vec![1];
    let s = script(vec![Err(StreamError::LastOperationFailed(9))], vec![], vec![]);
    let (outcome, transcript) = send_chunk(&chunk, &s);
    assert_eq!(outcome, SendOutcome::Failed(StreamError::LastOperationFailed(9)));
    assert_eq!(
        transcript,
        vec![SinkEvent::Check(Err(StreamError::LastOperationFailed(9)))]
    );
}

#[test]
fn close_during_flush_wait_is_success() {
    let chunk: Vec<u8> = vec![];
    let s = script(vec![Ok(1)], vec![], vec![Err(StreamError::Closed)]);
    let (outcome, _) = send_chunk(&chunk, &s);
    assert_eq!(outcome, SendOutcome::Sent);
}

#[test]
fn capacity_decisions() {
    let progress = ChunkProgress { offset: 0, flushing: false };
    assert_eq!(sink_on_check(3, progress, Ok(0)), SinkStep::Suspend);
    assert_eq!(sink_on_check(3, progress, Ok(2)), SinkStep::Write(2));
    assert_eq!(sink_on_check(3, progress, Ok(100)), SinkStep::Write(3));
    let done = ChunkProgress { offset: 3, flushing: false };
    assert_eq!(sink_on_check(3, done, Ok(5)), SinkStep::Flush);
    let flushed = ChunkProgress { offset: 3, flushing: true };
    assert_eq!(sink_on_check(3, flushed, Ok(5)), SinkStep::Complete);
    assert_eq!(
        sink_on_check(3, done, Err(StreamError::Closed)),
        SinkStep::Complete
    );
    assert_eq!(
        sink_on_check(3, progress, Err(StreamError::Closed)),
        SinkStep::Fail(StreamError::Closed)
    );
}

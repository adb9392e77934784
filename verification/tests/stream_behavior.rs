use spin_sdk::stream::collect_chunks;
use spin_sdk::stream::read_chunks;
use spin_sdk::stream::stream_on_read;
use spin_sdk::stream::PullStep;
use spin_sdk::stream::ReadCall;
use spin_sdk::stream::ReadReply;
use spin_sdk::stream::READ_BUDGET;

#[test]
fn three_reads_then_close_yield_three_chunks() {
    let script = vec![
        ReadReply::Data(vec![1]),
        ReadReply::Data(vec![2, 3]),
        ReadReply::Data(vec![4]),
        ReadReply::Closed,
    ];
    let (items, calls) = read_chunks(script);
    assert_eq!(
        items,
        vec![Ok(vec![1]), Ok(vec![2, 3]), Ok(vec![4])]
    );
    assert_eq!(
        calls,
        vec![ReadCall::Read, ReadCall::Read, ReadCall::Read, ReadCall::Read]
    );
    assert_eq!(collect_chunks(items), Ok(vec![1, 2, 3, 4]));
}

#[test]
fn failed_read_is_the_terminal_element() {
    let script = vec![
        ReadReply::Data(vec![1]),
        ReadReply::Failed(9),
        ReadReply::Data(vec![2]),
    ];
    let (items, calls) = read_chunks(script);
    assert_eq!(items, vec![Ok(vec![1]), Err(9)]);
    assert_eq!(calls, vec![ReadCall::Read, ReadCall::Read]);
}

#[test]
fn empty_read_subscribes_and_suspends() {
    let script = vec![
        ReadReply::Data(vec![]),
        ReadReply::Data(vec![5]),
        ReadReply::Closed,
    ];
    let (items, calls) = read_chunks(script);
    assert_eq!(items, vec![Ok(vec![5])]);
    assert_eq!(
        calls,
        vec![
            ReadCall::Read,
            ReadCall::Subscribe,
            ReadCall::Read,
            ReadCall::Read,
        ]
    );
}

#[test]
fn immediate_close_yields_nothing() {
    let (items, calls) = read_chunks(vec![ReadReply::Closed]);
    assert_eq!(items, Vec::<Result<Vec<u8>, u64>>::new());
    assert_eq!(calls, vec![ReadCall::Read]);
    assert_eq!(collect_chunks(items), Ok(vec![]));
}

#[test]
fn collect_fails_eagerly_on_first_error() {
    let items = vec![Ok(vec![1]), Err(3), Ok(vec![2]), Err(4)];
    assert_eq!(collect_chunks(items), Err(3));
}

#[test]
fn pull_decisions() {
    assert_eq!(
        stream_on_read(ReadReply::Data(vec![1, 2])),
        PullStep::Yield(vec![1, 2])
    );
    assert_eq!(stream_on_read(ReadReply::Data(vec![])), PullStep::Suspend);
    assert_eq!(stream_on_read(ReadReply::Closed), PullStep::End);
    assert_eq!(stream_on_read(ReadReply::Failed(5)), PullStep::YieldError(5));
}

#[test]
fn read_budget_is_sixteen_kib() {
    assert_eq!(READ_BUDGET, 16 * 1024);
}

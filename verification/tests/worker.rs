use flate2::Compression;
use kinesis_tools_rust::record::{
    emit, process_records, record_to_string_with, render_block, Emission, Record,
};
use kinesis_tools_rust::worker::{
    ShardCursor, Worker, WorkerAction, WorkerEvent, WorkerState, POLL_INTERVAL_SECONDS,
};
use std::io::Write;

const RULE: &str = "------------------------------------------------------------";

fn record(sequence_number: &str, data: &[u8]) -> Record {
    Record {
        sequence_number: sequence_number.to_string(),
        partition_key: "key-1".to_string(),
        arrival: "2024-05-01T10:00:00Z".to_string(),
        data: data.to_vec(),
    }
}

fn gzip(text: &str) -> Vec<u8> {
    let mut encoder = flate2::write::GzEncoder::new(Vec::new(), Compression::default());
    encoder.write_all(text.as_bytes()).unwrap();
    encoder.finish().unwrap()
}

fn cursor(token: &str) -> ShardCursor {
    ShardCursor { token: token.to_string() }
}

fn polling(shard_id: &str, token: &str) -> Worker {
    let worker = Worker::new(shard_id.to_string(), true);
    let (worker, _) = worker.step(WorkerEvent::CursorOpened { cursor: cursor(token) });
    worker
}

fn block(shard_id: &str, sequence_number: &str, body: &str) -> Emission {
    Emission::Block {
        sequence_number: sequence_number.to_string(),
        text: format!(
            "{RULE}\nEvent received from shard '{shard_id}':\nPartition Key 'key-1':\nSequence '{sequence_number}':\nReceived at '2024-05-01T10:00:00Z':\n{body}\n{RULE}"
        ),
    }
}

#[test]
fn render_block_lays_out_the_block() {
    let shown = render_block("shardId-000000000000", &record("49590338271", b""), "{\n  \"id\": 1\n}");
    assert_eq!(
        shown,
        "------------------------------------------------------------\n\
         Event received from shard 'shardId-000000000000':\n\
         Partition Key 'key-1':\n\
         Sequence '49590338271':\n\
         Received at '2024-05-01T10:00:00Z':\n\
         {\n  \"id\": 1\n}\n\
         ------------------------------------------------------------"
    );
}

#[test]
fn emit_gives_a_block_or_a_failure() {
    assert_eq!(emit("A", true, &record("1", b"hello")), block("A", "1", "hello"));
    assert_eq!(
        emit("A", true, &record("2", b"")),
        Emission::Failure { message: "Empty record received".to_string() }
    );
    assert_eq!(
        emit("A", true, &record("3", &[0xff, 0xff])),
        Emission::Failure { message: "Default error".to_string() }
    );
}

#[test]
fn process_records_skips_what_does_not_decode_and_goes_on() {
    let records = vec![
        record("1", b"first"),
        record("2", b""),
        record("3", &[0xc0]),
        record("4", b"{\"n\":4}"),
    ];
    assert_eq!(
        process_records("A", true, &records),
        vec![
            block("A", "1", "first"),
            Emission::Failure { message: "Empty record received".to_string() },
            Emission::Failure { message: "Default error".to_string() },
            block("A", "4", "{\n  \"n\": 4\n}"),
        ]
    );
    assert_eq!(process_records("A", true, &Vec::new()), Vec::new());
}

fn zlib(text: &str) -> Vec<u8> {
    let mut encoder = flate2::write::ZlibEncoder::new(Vec::new(), Compression::default());
    encoder.write_all(text.as_bytes()).unwrap();
    encoder.finish().unwrap()
}

#[test]
fn zlib_is_inflated_only_where_compressed_payloads_are_expected() {
    let stream = zlib("hello world");
    assert_eq!(record_to_string_with(&stream, true), Ok("hello world".to_string()));
    assert_eq!(
        record_to_string_with(&stream, false),
        Err(kinesis_tools_rust::payload::FormatRecordError::Default)
    );
    assert_eq!(emit("A", true, &record("1", &stream)), block("A", "1", "hello world"));
    assert_eq!(
        emit("A", false, &record("1", &stream)),
        Emission::Failure { message: "Default error".to_string() }
    );
    // gzip and text are read all the same
    assert_eq!(emit("A", false, &record("2", &gzip("zipped"))), block("A", "2", "zipped"));
    assert_eq!(emit("A", false, &record("3", b"plain")), block("A", "3", "plain"));
}

#[test]
fn a_worker_hands_its_setting_on_to_the_decoding() {
    let worker = Worker::new("A".to_string(), false);
    assert!(!worker.expect_compressed);
    let (worker, _) = worker.step(WorkerEvent::CursorOpened { cursor: cursor("c0") });
    let (worker, action) = worker.step(WorkerEvent::Polled {
        records: vec![record("1", &zlib("hello")), record("2", &gzip("world"))],
        next: Some(cursor("c1")),
    });
    assert!(!worker.expect_compressed);
    assert_eq!(
        action,
        WorkerAction::Pause {
            emissions: vec![
                Emission::Failure { message: "Default error".to_string() },
                block("A", "2", "world"),
            ],
            seconds: 1,
        }
    );
}

#[test]
fn a_new_worker_opens_its_cursor_at_latest() {
    let worker = Worker::new("A".to_string(), true);
    assert_eq!(worker.shard_id, "A");
    assert_eq!(worker.state, WorkerState::Opening);
    assert!(!worker.ended());
    assert_eq!(worker.start(), WorkerAction::OpenAtLatest);
}

#[test]
fn an_opened_cursor_is_polled() {
    let worker = Worker::new("A".to_string(), true);
    let (worker, action) = worker.step(WorkerEvent::CursorOpened { cursor: cursor("c0") });
    assert_eq!(worker.state, WorkerState::Polling);
    assert_eq!(action, WorkerAction::Poll { cursor: cursor("c0") });
    assert_eq!(worker.shard_id, "A");
}

#[test]
fn a_gzip_record_is_shown_pretty_printed() {
    let worker = polling("A", "c0");
    let (worker, action) = worker.step(WorkerEvent::Polled {
        records: vec![record("100", gzip("{\"id\":1}").as_slice())],
        next: Some(cursor("c1")),
    });
    assert_eq!(worker.state, WorkerState::Sleeping { cursor: cursor("c1") });
    assert_eq!(
        action,
        WorkerAction::Pause { emissions: vec![block("A", "100", "{\n  \"id\": 1\n}")], seconds: 1 }
    );
}

#[test]
fn an_empty_payload_is_reported_and_the_worker_polls_on() {
    let worker = polling("A", "c0");
    let (worker, action) = worker
        .step(WorkerEvent::Polled { records: vec![record("7", b"")], next: Some(cursor("c1")) });
    assert_eq!(
        action,
        WorkerAction::Pause {
            emissions: vec![Emission::Failure { message: "Empty record received".to_string() }],
            seconds: POLL_INTERVAL_SECONDS,
        }
    );
    assert_eq!(POLL_INTERVAL_SECONDS, 1);
    assert_eq!(worker.state, WorkerState::Sleeping { cursor: cursor("c1") });
    let (worker, action) = worker.step(WorkerEvent::Slept);
    assert_eq!(action, WorkerAction::Poll { cursor: cursor("c1") });
    assert_eq!(worker.state, WorkerState::Polling);
    assert!(!worker.ended());
}

#[test]
fn a_failed_open_ends_that_worker_alone() {
    let shard_a = polling("A", "a0");
    let shard_b = Worker::new("B".to_string(), true);
    let (shard_b, action) = shard_b.step(WorkerEvent::OpenFailed { reason: "NotFound".to_string() });
    assert_eq!(shard_b.state, WorkerState::Failed);
    assert!(shard_b.ended());
    assert_eq!(
        action,
        WorkerAction::Finish { emissions: Vec::new(), failure: Some("NotFound".to_string()) }
    );
    let (shard_a, action) = shard_a.step(WorkerEvent::Polled {
        records: vec![record("1", b"still here")],
        next: Some(cursor("a1")),
    });
    assert_eq!(
        action,
        WorkerAction::Pause { emissions: vec![block("A", "1", "still here")], seconds: 1 }
    );
    assert_eq!(shard_a.state, WorkerState::Sleeping { cursor: cursor("a1") });
}

#[test]
fn a_failed_poll_ends_the_worker() {
    let worker = polling("A", "c0");
    let (worker, action) = worker.step(WorkerEvent::PollFailed { reason: "Throttled".to_string() });
    assert_eq!(worker.state, WorkerState::Failed);
    assert_eq!(
        action,
        WorkerAction::Finish { emissions: Vec::new(), failure: Some("Throttled".to_string()) }
    );
}

#[test]
fn a_poll_without_next_cursor_closes_the_worker() {
    let worker = polling("A", "c0");
    let (worker, action) =
        worker.step(WorkerEvent::Polled { records: vec![record("9", b"last")], next: None });
    assert_eq!(worker.state, WorkerState::Closed);
    assert!(worker.ended());
    assert_eq!(
        action,
        WorkerAction::Finish { emissions: vec![block("A", "9", "last")], failure: None }
    );
}

#[test]
fn an_ended_worker_stays_ended_and_signals_no_more() {
    let worker = polling("A", "c0");
    let (worker, _) = worker.step(WorkerEvent::Polled { records: Vec::new(), next: None });
    let (worker, action) = worker.step(WorkerEvent::Slept);
    assert_eq!(action, WorkerAction::Ignore);
    let (worker, action) =
        worker.step(WorkerEvent::Polled { records: vec![record("1", b"x")], next: None });
    assert_eq!(action, WorkerAction::Ignore);
    let (worker, action) = worker.step(WorkerEvent::PollFailed { reason: "late".to_string() });
    assert_eq!(action, WorkerAction::Ignore);
    assert_eq!(worker.state, WorkerState::Closed);
}

#[test]
fn an_event_that_is_not_awaited_changes_nothing() {
    let worker = Worker::new("A".to_string(), true);
    let (worker, action) = worker.step(WorkerEvent::Slept);
    assert_eq!((&worker.state, action), (&WorkerState::Opening, WorkerAction::Ignore));
    let (worker, action) = worker.step(WorkerEvent::Polled { records: Vec::new(), next: None });
    assert_eq!((&worker.state, action), (&WorkerState::Opening, WorkerAction::Ignore));
    let worker = polling("A", "c0");
    let (worker, action) = worker.step(WorkerEvent::CursorOpened { cursor: cursor("c9") });
    assert_eq!(action, WorkerAction::Ignore);
    assert_eq!(worker.state, WorkerState::Polling);
    let (worker, action) = worker.step(WorkerEvent::Slept);
    assert_eq!(action, WorkerAction::Ignore);
    assert_eq!(worker.state, WorkerState::Polling);
}

#[test]
fn blocks_come_out_in_the_order_of_the_records_across_polls() {
    let mut worker = polling("A", "c0");
    let mut shown: Vec<String> = Vec::new();
    let polls = vec![
        vec![record("1", b"a"), record("2", b""), record("3", b"c")],
        vec![],
        vec![record("4", b"d"), record("5", b"e")],
    ];
    let mut polled = 0;
    for records in polls {
        polled += 1;
        let (next, action) =
            worker.step(WorkerEvent::Polled { records, next: Some(cursor(&format!("c{polled}"))) });
        match action {
            WorkerAction::Pause { emissions, seconds: 1 } => {
                for emission in emissions {
                    if let Emission::Block { sequence_number, .. } = emission {
                        shown.push(sequence_number);
                    }
                }
            }
            other => panic!("unexpected action {other:?}"),
        }
        let (next, action) = next.step(WorkerEvent::Slept);
        assert_eq!(action, WorkerAction::Poll { cursor: cursor(&format!("c{polled}")) });
        worker = next;
    }
    assert_eq!(shown, vec!["1", "3", "4", "5"]);
}

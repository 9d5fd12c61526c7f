use kinesis_tools_rust::consumer::{
    launch_workers, stream_header, Consumer, ConsumerAction, ConsumerEvent, ConsumerState,
    FatalError, Settings, ShardDescriptor, StreamDescriptor,
};
use kinesis_tools_rust::worker::{Worker, WorkerState};

fn shard(shard_id: &str) -> ShardDescriptor {
    ShardDescriptor {
        shard_id: shard_id.to_string(),
        parent_shard_id: None,
        adjacent_parent_shard_id: None,
        starting_hash_key: "0".to_string(),
        ending_hash_key: "340282366920938463463374607431768211455".to_string(),
    }
}

fn orders(shards: Vec<ShardDescriptor>) -> StreamDescriptor {
    StreamDescriptor {
        name: "orders".to_string(),
        arn: "arn:aws:kinesis:eu-west-3:123456789012:stream/orders".to_string(),
        status: "Active".to_string(),
        retention_hours: 24,
        encryption: "None".to_string(),
        shards,
    }
}

fn settings() -> Settings {
    Settings {
        stream: "orders".to_string(),
        region: "eu-west-3".to_string(),
        expect_compressed: true,
    }
}

fn waiting(workers: usize) -> Consumer {
    let consumer = Consumer::new(settings());
    let shards = (0..workers).map(|i| shard(&format!("shard-{i}"))).collect();
    let (consumer, _) = consumer.step(ConsumerEvent::Described { stream: orders(shards) });
    let (consumer, _) = consumer.step(ConsumerEvent::Launched);
    consumer
}

#[test]
fn stream_header_lays_out_the_header() {
    let header = stream_header(&orders(vec![shard("A"), shard("B")]), "eu-west-3");
    assert_eq!(
        header,
        "Reading Kinesis stream 'orders'\n\
         \n\
         Stream information for 'orders'\n\
         - Name: orders:\n\
         - ARN: arn:aws:kinesis:eu-west-3:123456789012:stream/orders:\n\
         - Region: eu-west-3\n\
         - Status: Active\n\
         - Number of Shards: 2\n\
         - Encryption: None\n"
    );
    let many = (0..12).map(|i| shard(&format!("s{i}"))).collect();
    assert!(stream_header(&orders(many), "r").contains("\n- Number of Shards: 12\n"));
}

#[test]
fn launch_workers_gives_one_worker_for_each_shard() {
    let workers = launch_workers(&vec![shard("A"), shard("B"), shard("C")], true);
    assert_eq!(
        workers,
        vec![
            Worker {
                shard_id: "A".to_string(),
                expect_compressed: true,
                state: WorkerState::Opening,
            },
            Worker {
                shard_id: "B".to_string(),
                expect_compressed: true,
                state: WorkerState::Opening,
            },
            Worker {
                shard_id: "C".to_string(),
                expect_compressed: true,
                state: WorkerState::Opening,
            },
        ]
    );
    assert_eq!(
        launch_workers(&vec![shard("A")], false),
        vec![Worker {
            shard_id: "A".to_string(),
            expect_compressed: false,
            state: WorkerState::Opening,
        }]
    );
    assert_eq!(launch_workers(&Vec::new(), true), Vec::new());
}

#[test]
fn a_new_consumer_has_the_stream_described() {
    let consumer = Consumer::new(settings());
    assert_eq!(consumer.state, ConsumerState::Describing);
    assert_eq!(consumer.start(), ConsumerAction::Describe { stream: "orders".to_string() });
}

#[test]
fn a_stream_that_is_not_found_ends_the_consumer() {
    let consumer = Consumer::new(settings());
    let (consumer, action) = consumer.step(ConsumerEvent::DescribeFailed);
    assert_eq!(consumer.state, ConsumerState::Failed);
    assert_eq!(action, ConsumerAction::Return { outcome: Err(FatalError::StreamNotFound) });
    let (consumer, action) = consumer.step(ConsumerEvent::WorkerCompleted);
    assert_eq!(consumer.state, ConsumerState::Failed);
    assert_eq!(action, ConsumerAction::Ignore);
}

#[test]
fn a_described_stream_gets_a_worker_for_each_shard() {
    let consumer = Consumer::new(settings());
    let stream = orders(vec![shard("A"), shard("B")]);
    let header = stream_header(&stream, "eu-west-3");
    let (consumer, action) = consumer.step(ConsumerEvent::Described { stream });
    assert_eq!(consumer.state, ConsumerState::Launching { workers: 2 });
    assert_eq!(consumer.settings, settings());
    assert_eq!(
        action,
        ConsumerAction::Launch {
            header,
            workers: vec![Worker::new("A".to_string(), true), Worker::new("B".to_string(), true)],
            capacity: 2,
        }
    );
    let (consumer, action) = consumer.step(ConsumerEvent::Launched);
    assert_eq!(consumer.state, ConsumerState::Waiting { remaining: 2 });
    assert_eq!(action, ConsumerAction::AwaitCompletion);
}

#[test]
fn the_workers_get_the_setting_of_the_consumer() {
    let consumer = Consumer::new(Settings { expect_compressed: false, ..settings() });
    let (_, action) =
        consumer.step(ConsumerEvent::Described { stream: orders(vec![shard("A"), shard("B")]) });
    match action {
        ConsumerAction::Launch { workers, .. } => assert_eq!(
            workers,
            vec![Worker::new("A".to_string(), false), Worker::new("B".to_string(), false)]
        ),
        other => panic!("unexpected action {other:?}"),
    }
}

#[test]
fn the_consumer_returns_on_the_last_completion_signal() {
    let consumer = waiting(3);
    let (consumer, action) = consumer.step(ConsumerEvent::WorkerCompleted);
    assert_eq!(consumer.state, ConsumerState::Waiting { remaining: 2 });
    assert_eq!(action, ConsumerAction::AwaitCompletion);
    let (consumer, action) = consumer.step(ConsumerEvent::WorkerCompleted);
    assert_eq!(consumer.state, ConsumerState::Waiting { remaining: 1 });
    assert_eq!(action, ConsumerAction::AwaitCompletion);
    let (consumer, action) = consumer.step(ConsumerEvent::WorkerCompleted);
    assert_eq!(consumer.state, ConsumerState::Done);
    assert_eq!(action, ConsumerAction::Return { outcome: Ok(()) });
    let (consumer, action) = consumer.step(ConsumerEvent::WorkerCompleted);
    assert_eq!(consumer.state, ConsumerState::Done);
    assert_eq!(action, ConsumerAction::Ignore);
}

#[test]
fn a_stream_without_shards_is_done_at_once() {
    let consumer = Consumer::new(settings());
    let (consumer, action) = consumer.step(ConsumerEvent::Described { stream: orders(Vec::new()) });
    assert_eq!(consumer.state, ConsumerState::Launching { workers: 0 });
    assert!(matches!(
        action,
        ConsumerAction::Launch { workers, capacity: 0, .. } if workers.is_empty()
    ));
    let (consumer, action) = consumer.step(ConsumerEvent::Launched);
    assert_eq!(consumer.state, ConsumerState::Done);
    assert_eq!(action, ConsumerAction::Return { outcome: Ok(()) });
}

#[test]
fn the_consumer_ignores_what_it_does_not_await() {
    let consumer = Consumer::new(settings());
    let (consumer, action) = consumer.step(ConsumerEvent::WorkerCompleted);
    assert_eq!((consumer.state, action), (ConsumerState::Describing, ConsumerAction::Ignore));
    let (consumer, action) = consumer.step(ConsumerEvent::Launched);
    assert_eq!((consumer.state, action), (ConsumerState::Describing, ConsumerAction::Ignore));
    let consumer = waiting(1);
    let (consumer, action) = consumer.step(ConsumerEvent::DescribeFailed);
    assert_eq!(
        (consumer.state, action),
        (ConsumerState::Waiting { remaining: 1 }, ConsumerAction::Ignore)
    );
}

#[test]
fn one_signal_for_each_of_two_shards_ends_the_session() {
    let consumer = Consumer::new(settings());
    let (consumer, action) =
        consumer.step(ConsumerEvent::Described { stream: orders(vec![shard("A"), shard("B")]) });
    let workers = match action {
        ConsumerAction::Launch { workers, .. } => workers,
        other => panic!("unexpected action {other:?}"),
    };
    let (mut consumer, mut action) = consumer.step(ConsumerEvent::Launched);
    let mut signals = 0;
    for worker in workers {
        assert_eq!(action, ConsumerAction::AwaitCompletion);
        let (worker, finish) = worker.step(kinesis_tools_rust::worker::WorkerEvent::OpenFailed {
            reason: "forced".to_string(),
        });
        assert!(worker.ended());
        assert!(matches!(finish, kinesis_tools_rust::worker::WorkerAction::Finish { .. }));
        signals += 1;
        (consumer, action) = consumer.step(ConsumerEvent::WorkerCompleted);
    }
    assert_eq!(signals, 2);
    assert_eq!(consumer.state, ConsumerState::Done);
    assert_eq!(action, ConsumerAction::Return { outcome: Ok(()) });
}

//! The consumer of a stream, as a state machine: it has the stream
//! described, launches one worker for each shard, and returns when every
//! worker has signalled completion.

use crate::text::{decimal, decimal_text, text_of};
use crate::worker::{Worker, WorkerView};
use vstd::prelude::*;
use vstd::string::*;

verus! {

/// A shard of a stream, as the stream's description gives it.
#[derive(Debug, PartialEq, Eq)]
pub struct ShardDescriptor {
    pub shard_id: String,
    /// The shard that this one was split from, or one of the two that it was
    /// merged from.
    pub parent_shard_id: Option<String>,
    /// The other shard that this one was merged from.
    pub adjacent_parent_shard_id: Option<String>,
    /// The first hash key of the shard's range.
    pub starting_hash_key: String,
    /// The last hash key of the shard's range.
    pub ending_hash_key: String,
}

/// A stream, as one call describes it.
#[derive(Debug, PartialEq, Eq)]
pub struct StreamDescriptor {
    pub name: String,
    pub arn: String,
    /// The status, as the service names it.
    pub status: String,
    /// For how many hours the stream keeps its records.
    pub retention_hours: i32,
    /// The encryption of the stream, as the service names it.
    pub encryption: String,
    /// The shards, in the order in which the service lists them.
    pub shards: Vec<ShardDescriptor>,
}

/// An error that ends the consumer before any worker starts.
#[derive(Debug, PartialEq, Eq, Clone, Copy, Structural)]
pub enum FatalError {
    /// The stream could not be described.
    StreamNotFound,
}

/// Where a consumer stands.
#[derive(Debug, PartialEq, Eq, Clone, Copy, Structural)]
pub enum ConsumerState {
    /// It awaits the description of the stream.
    Describing,
    /// It awaits the launch of so many workers.
    Launching { workers: usize },
    /// It awaits so many completion signals.
    Waiting { remaining: usize },
    /// Every worker has signalled completion.
    Done,
    /// The stream could not be described.
    Failed,
}

/// What happened to what a consumer asked for.
#[derive(Debug, PartialEq, Eq)]
pub enum ConsumerEvent {
    /// The stream was described.
    Described { stream: StreamDescriptor },
    /// The stream does not exist, or the call failed.
    DescribeFailed,
    /// The workers were launched.
    Launched,
    /// One worker signalled completion.
    WorkerCompleted,
}

/// What a consumer asks for.
#[derive(Debug, PartialEq, Eq)]
pub enum ConsumerAction {
    /// Have this stream described.
    Describe { stream: String },
    /// Show the header, then launch these workers, each on its own, with a
    /// channel for their completion signals that holds `capacity` signals:
    /// one of each worker.
    Launch { header: String, workers: Vec<Worker>, capacity: usize },
    /// Wait for one completion signal.
    AwaitCompletion,
    /// Return with this outcome.
    Return { outcome: Result<(), FatalError> },
    /// Nothing: the event was not one that the consumer awaited.
    Ignore,
}

/// What a consumer is told once, when it is made.
#[derive(Debug, PartialEq, Eq)]
pub struct Settings {
    /// The name of the stream.
    pub stream: String,
    /// The region that the stream is read in, for the header.
    pub region: String,
    /// Whether compressed payloads are expected.
    pub expect_compressed: bool,
}

/// The consumer of one stream.
#[derive(Debug, PartialEq, Eq)]
pub struct Consumer {
    pub settings: Settings,
    /// Where the consumer stands.
    pub state: ConsumerState,
}

/// The mathematical value of [`Settings`].
pub ghost struct SettingsView {
    pub stream: Seq<char>,
    pub region: Seq<char>,
    pub expect_compressed: bool,
}

impl View for Settings {
    type V = SettingsView;

    open spec fn view(&self) -> SettingsView {
        SettingsView {
            stream: self.stream@,
            region: self.region@,
            expect_compressed: self.expect_compressed,
        }
    }
}

/// The mathematical value of a [`ShardDescriptor`].
pub ghost struct ShardView {
    pub shard_id: Seq<char>,
    pub parent_shard_id: Option<Seq<char>>,
    pub adjacent_parent_shard_id: Option<Seq<char>>,
    pub starting_hash_key: Seq<char>,
    pub ending_hash_key: Seq<char>,
}

/// The mathematical value of a [`StreamDescriptor`].
pub ghost struct StreamView {
    pub name: Seq<char>,
    pub arn: Seq<char>,
    pub status: Seq<char>,
    pub retention_hours: int,
    pub encryption: Seq<char>,
    pub shards: Seq<ShardView>,
}

/// The mathematical value of a [`ConsumerEvent`].
pub ghost enum ConsumerEventView {
    Described { stream: StreamView },
    DescribeFailed,
    Launched,
    WorkerCompleted,
}

/// The mathematical value of a [`ConsumerAction`].
pub ghost enum ConsumerActionView {
    Describe { stream: Seq<char> },
    Launch { header: Seq<char>, workers: Seq<WorkerView>, capacity: nat },
    AwaitCompletion,
    Return { outcome: Result<(), FatalError> },
    Ignore,
}

impl View for ShardDescriptor {
    type V = ShardView;

    open spec fn view(&self) -> ShardView {
        ShardView {
            shard_id: self.shard_id@,
            parent_shard_id: text_of(self.parent_shard_id),
            adjacent_parent_shard_id: text_of(self.adjacent_parent_shard_id),
            starting_hash_key: self.starting_hash_key@,
            ending_hash_key: self.ending_hash_key@,
        }
    }
}

/// The values of shards.
pub open spec fn shards_view(shards: Seq<ShardDescriptor>) -> Seq<ShardView> {
    Seq::new(shards.len(), |i: int| shards[i]@)
}

/// The values of workers.
pub open spec fn workers_view(workers: Seq<Worker>) -> Seq<WorkerView> {
    Seq::new(workers.len(), |i: int| workers[i]@)
}

impl View for StreamDescriptor {
    type V = StreamView;

    open spec fn view(&self) -> StreamView {
        StreamView {
            name: self.name@,
            arn: self.arn@,
            status: self.status@,
            retention_hours: self.retention_hours as int,
            encryption: self.encryption@,
            shards: shards_view(self.shards@),
        }
    }
}

impl View for ConsumerEvent {
    type V = ConsumerEventView;

    open spec fn view(&self) -> ConsumerEventView {
        match self {
            ConsumerEvent::Described { stream } => ConsumerEventView::Described { stream: stream@ },
            ConsumerEvent::DescribeFailed => ConsumerEventView::DescribeFailed,
            ConsumerEvent::Launched => ConsumerEventView::Launched,
            ConsumerEvent::WorkerCompleted => ConsumerEventView::WorkerCompleted,
        }
    }
}

impl View for ConsumerAction {
    type V = ConsumerActionView;

    open spec fn view(&self) -> ConsumerActionView {
        match self {
            ConsumerAction::Describe { stream } => ConsumerActionView::Describe { stream: stream@ },
            ConsumerAction::Launch { header, workers, capacity } => ConsumerActionView::Launch {
                header: header@,
                workers: workers_view(workers@),
                capacity: *capacity as nat,
            },
            ConsumerAction::AwaitCompletion => ConsumerActionView::AwaitCompletion,
            ConsumerAction::Return { outcome } => ConsumerActionView::Return { outcome: *outcome },
            ConsumerAction::Ignore => ConsumerActionView::Ignore,
        }
    }
}

/// The header shown for a stream that is read in the region `region`.
pub open spec fn header_text(stream: StreamView, region: Seq<char>) -> Seq<char> {
    "Reading Kinesis stream '"@ + stream.name + "'\n\n"@
        + "Stream information for '"@ + stream.name + "'\n"@
        + "- Name: "@ + stream.name + ":\n"@
        + "- ARN: "@ + stream.arn + ":\n"@
        + "- Region: "@ + region + "\n"@
        + "- Status: "@ + stream.status + "\n"@
        + "- Number of Shards: "@ + decimal_text(stream.shards.len()) + "\n"@
        + "- Encryption: "@ + stream.encryption + "\n"@
}

/// The workers launched for `shards`: one for each shard, in the shards'
/// order, each yet to open its cursor.
pub open spec fn workers_for(shards: Seq<ShardView>, expect_compressed: bool) -> Seq<WorkerView> {
    Seq::new(shards.len(), |i: int| WorkerView::fresh(shards[i].shard_id, expect_compressed))
}

/// The state that follows `state` on `event`, and what the consumer then
/// asks for, given its settings.
///
/// A described stream has its header shown and one worker launched for
/// each shard; a stream that cannot be described ends the consumer with
/// `StreamNotFound`. Once launched, the consumer waits for one completion
/// signal of each worker and then returns `Ok`. An event that the state
/// does not await changes nothing.
pub open spec fn consumer_step_of(
    settings: SettingsView,
    state: ConsumerState,
    event: ConsumerEventView,
) -> (ConsumerState, ConsumerActionView) {
    match (state, event) {
        (ConsumerState::Describing, ConsumerEventView::Described { stream }) => (
            ConsumerState::Launching { workers: stream.shards.len() as usize },
            ConsumerActionView::Launch {
                header: header_text(stream, settings.region),
                workers: workers_for(stream.shards, settings.expect_compressed),
                capacity: stream.shards.len(),
            },
        ),
        (ConsumerState::Describing, ConsumerEventView::DescribeFailed) => (
            ConsumerState::Failed,
            ConsumerActionView::Return { outcome: Err(FatalError::StreamNotFound) },
        ),
        (ConsumerState::Launching { workers }, ConsumerEventView::Launched) => if workers == 0 {
            (ConsumerState::Done, ConsumerActionView::Return { outcome: Ok(()) })
        } else {
            (ConsumerState::Waiting { remaining: workers }, ConsumerActionView::AwaitCompletion)
        },
        (ConsumerState::Waiting { remaining }, ConsumerEventView::WorkerCompleted) => if remaining
            <= 1 {
            (ConsumerState::Done, ConsumerActionView::Return { outcome: Ok(()) })
        } else {
            (
                ConsumerState::Waiting { remaining: (remaining - 1) as usize },
                ConsumerActionView::AwaitCompletion,
            )
        },
        _ => (state, ConsumerActionView::Ignore),
    }
}

/// The header shown for `stream`, read in the region `region`.
pub fn stream_header(stream: &StreamDescriptor, region: &str) -> (header: String)
    ensures
        header@ == header_text(stream@, region@),
{
    let mut header = String::from_str("Reading Kinesis stream '");
    header.append(stream.name.as_str());
    header.append("'\n\n");
    header.append("Stream information for '");
    header.append(stream.name.as_str());
    header.append("'\n");
    header.append("- Name: ");
    header.append(stream.name.as_str());
    header.append(":\n");
    header.append("- ARN: ");
    header.append(stream.arn.as_str());
    header.append(":\n");
    header.append("- Region: ");
    header.append(region);
    header.append("\n");
    header.append("- Status: ");
    header.append(stream.status.as_str());
    header.append("\n");
    header.append("- Number of Shards: ");
    header.append(decimal(stream.shards.len()).as_str());
    header.append("\n");
    header.append("- Encryption: ");
    header.append(stream.encryption.as_str());
    header.append("\n");
    header
}

/// One worker for each shard, in the shards' order.
pub fn launch_workers(shards: &Vec<ShardDescriptor>, expect_compressed: bool) -> (workers: Vec<
    Worker,
>)
    ensures
        workers.len() == shards.len(),
        workers_view(workers@) == workers_for(shards_view(shards@), expect_compressed),
{
    let mut workers: Vec<Worker> = Vec::new();
    let mut i: usize = 0;
    while i < shards.len()
        invariant
            i <= shards.len(),
            workers.len() == i,
            forall|k: int|
                0 <= k < i ==> (#[trigger] workers[k])@ == WorkerView::fresh(
                    shards[k].shard_id@,
                    expect_compressed,
                ),
        decreases shards.len() - i,
    {
        workers.push(Worker::new(shards[i].shard_id.clone(), expect_compressed));
        i = i + 1;
    }
    assert(workers_view(workers@) =~= workers_for(shards_view(shards@), expect_compressed));
    workers
}

impl Consumer {
    /// A consumer with these settings, which has yet to have the stream
    /// described.
    pub fn new(settings: Settings) -> (consumer: Consumer)
        ensures
            consumer.settings == settings,
            consumer.state == ConsumerState::Describing,
    {
        Consumer { settings, state: ConsumerState::Describing }
    }

    /// What a new consumer asks for first.
    pub fn start(&self) -> (action: ConsumerAction)
        ensures
            action@ == (ConsumerActionView::Describe { stream: self.settings.stream@ }),
    {
        ConsumerAction::Describe { stream: self.settings.stream.clone() }
    }

    /// Takes an event: the consumer moves on and says what it asks for
    /// next.
    pub fn step(self, event: ConsumerEvent) -> (next: (Consumer, ConsumerAction))
        ensures
            next.0.settings == self.settings,
            (next.0.state, next.1@) == consumer_step_of(self.settings@, self.state, event@),
    {
        let Consumer { settings, state } = self;
        match (state, event) {
            (ConsumerState::Describing, ConsumerEvent::Described { stream }) => {
                let header = stream_header(&stream, settings.region.as_str());
                let workers = launch_workers(&stream.shards, settings.expect_compressed);
                let count = workers.len();
                (
                    Consumer { settings, state: ConsumerState::Launching { workers: count } },
                    ConsumerAction::Launch { header, workers, capacity: count },
                )
            },
            (ConsumerState::Describing, ConsumerEvent::DescribeFailed) => (
                Consumer { settings, state: ConsumerState::Failed },
                ConsumerAction::Return { outcome: Err(FatalError::StreamNotFound) },
            ),
            (ConsumerState::Launching { workers }, ConsumerEvent::Launched) => {
                if workers == 0 {
                    (
                        Consumer { settings, state: ConsumerState::Done },
                        ConsumerAction::Return { outcome: Ok(()) },
                    )
                } else {
                    (
                        Consumer { settings, state: ConsumerState::Waiting { remaining: workers } },
                        ConsumerAction::AwaitCompletion,
                    )
                }
            },
            (ConsumerState::Waiting { remaining }, ConsumerEvent::WorkerCompleted) => {
                if remaining <= 1 {
                    (
                        Consumer { settings, state: ConsumerState::Done },
                        ConsumerAction::Return { outcome: Ok(()) },
                    )
                } else {
                    (
                        Consumer {
                            settings,
                            state: ConsumerState::Waiting { remaining: remaining - 1 },
                        },
                        ConsumerAction::AwaitCompletion,
                    )
                }
            },
            (state, _) => (Consumer { settings, state }, ConsumerAction::Ignore),
        }
    }
}

} // verus!

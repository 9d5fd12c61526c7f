//! The polling worker of one shard, as a state machine.
//!
//! The worker decides; whoever runs it performs what it asks for (opens
//! a cursor, polls, puts out, sleeps, signals) and hands back what
//! happened. A worker holds no state but its own.

use crate::record::{
    emissions_of, emissions_view, process_records, records_view, Emission, EmissionView, Record,
    RecordView,
};
use crate::text::text_of;
use vstd::prelude::*;
use vstd::string::*;

verus! {

/// The pause between two polls of a shard, in seconds.
pub const POLL_INTERVAL_SECONDS: u64 = 1;

/// A read position in one shard, as the service hands it out. A cursor is
/// good for one poll, which gives the cursor for the next: it is moved, and
/// never copied.
#[derive(Debug, PartialEq, Eq)]
pub struct ShardCursor {
    /// The token of the service.
    pub token: String,
}

/// Where a worker stands.
#[derive(Debug, PartialEq, Eq)]
pub enum WorkerState {
    /// It awaits its first cursor.
    Opening,
    /// It awaits the records of a poll, which has taken its cursor.
    Polling,
    /// It pauses; the next poll will take this cursor.
    Sleeping { cursor: ShardCursor },
    /// The shard is closed: a poll gave no next cursor.
    Closed,
    /// No cursor could be opened, or a poll failed.
    Failed,
}

/// What happened to what a worker asked for.
#[derive(Debug, PartialEq, Eq)]
pub enum WorkerEvent {
    /// The cursor was opened.
    CursorOpened { cursor: ShardCursor },
    /// No cursor could be opened.
    OpenFailed { reason: String },
    /// The poll returned these records and the cursor that follows, if the
    /// shard goes on.
    Polled { records: Vec<Record>, next: Option<ShardCursor> },
    /// The poll failed.
    PollFailed { reason: String },
    /// The pause is over.
    Slept,
}

/// What a worker asks for.
#[derive(Debug, PartialEq, Eq)]
pub enum WorkerAction {
    /// Open a cursor on the shard at its latest position, so that only
    /// records written from now on are read.
    OpenAtLatest,
    /// Poll the shard with this cursor, which the poll uses up.
    Poll { cursor: ShardCursor },
    /// Put these out, in this order, then pause for so many seconds.
    Pause { emissions: Vec<Emission>, seconds: u64 },
    /// Put these out, in this order, report the failure if there is one,
    /// then signal completion: the worker has ended.
    Finish { emissions: Vec<Emission>, failure: Option<String> },
    /// Nothing: the event was not one that the worker awaited.
    Ignore,
}

/// The worker of one shard.
#[derive(Debug, PartialEq, Eq)]
pub struct Worker {
    /// The shard that the worker reads.
    pub shard_id: String,
    /// Whether compressed payloads are expected.
    pub expect_compressed: bool,
    /// Where the worker stands.
    pub state: WorkerState,
}

/// The mathematical value of a [`WorkerState`].
pub ghost enum StateView {
    Opening,
    Polling,
    Sleeping { cursor: Seq<char> },
    Closed,
    Failed,
}

/// The mathematical value of a [`WorkerEvent`].
pub ghost enum EventView {
    CursorOpened { cursor: Seq<char> },
    OpenFailed { reason: Seq<char> },
    Polled { records: Seq<RecordView>, next: Option<Seq<char>> },
    PollFailed { reason: Seq<char> },
    Slept,
}

/// The mathematical value of a [`WorkerAction`].
pub ghost enum ActionView {
    OpenAtLatest,
    Poll { cursor: Seq<char> },
    Pause { emissions: Seq<EmissionView>, seconds: nat },
    Finish { emissions: Seq<EmissionView>, failure: Option<Seq<char>> },
    Ignore,
}

/// The mathematical value of a [`Worker`].
pub ghost struct WorkerView {
    pub shard_id: Seq<char>,
    pub expect_compressed: bool,
    pub state: StateView,
}

impl View for ShardCursor {
    type V = Seq<char>;

    open spec fn view(&self) -> Seq<char> {
        self.token@
    }
}

/// The value of a cursor that may be missing.
pub open spec fn cursor_of(cursor: Option<ShardCursor>) -> Option<Seq<char>> {
    match cursor {
        Some(cursor) => Some(cursor@),
        None => None,
    }
}

impl View for WorkerState {
    type V = StateView;

    open spec fn view(&self) -> StateView {
        match self {
            WorkerState::Opening => StateView::Opening,
            WorkerState::Polling => StateView::Polling,
            WorkerState::Sleeping { cursor } => StateView::Sleeping { cursor: cursor@ },
            WorkerState::Closed => StateView::Closed,
            WorkerState::Failed => StateView::Failed,
        }
    }
}

impl View for WorkerEvent {
    type V = EventView;

    open spec fn view(&self) -> EventView {
        match self {
            WorkerEvent::CursorOpened { cursor } => EventView::CursorOpened { cursor: cursor@ },
            WorkerEvent::OpenFailed { reason } => EventView::OpenFailed { reason: reason@ },
            WorkerEvent::Polled { records, next } => EventView::Polled {
                records: records_view(records@),
                next: cursor_of(*next),
            },
            WorkerEvent::PollFailed { reason } => EventView::PollFailed { reason: reason@ },
            WorkerEvent::Slept => EventView::Slept,
        }
    }
}

impl View for WorkerAction {
    type V = ActionView;

    open spec fn view(&self) -> ActionView {
        match self {
            WorkerAction::OpenAtLatest => ActionView::OpenAtLatest,
            WorkerAction::Poll { cursor } => ActionView::Poll { cursor: cursor@ },
            WorkerAction::Pause { emissions, seconds } => ActionView::Pause {
                emissions: emissions_view(emissions@),
                seconds: *seconds as nat,
            },
            WorkerAction::Finish { emissions, failure } => ActionView::Finish {
                emissions: emissions_view(emissions@),
                failure: text_of(*failure),
            },
            WorkerAction::Ignore => ActionView::Ignore,
        }
    }
}

impl View for Worker {
    type V = WorkerView;

    open spec fn view(&self) -> WorkerView {
        WorkerView {
            shard_id: self.shard_id@,
            expect_compressed: self.expect_compressed,
            state: self.state@,
        }
    }
}

impl StateView {
    /// Whether the worker has ended.
    pub open spec fn ended(self) -> bool {
        self is Closed || self is Failed
    }
}

impl WorkerView {
    /// A worker for the shard `shard_id` that has yet to open its cursor.
    pub open spec fn fresh(shard_id: Seq<char>, expect_compressed: bool) -> WorkerView {
        WorkerView { shard_id, expect_compressed, state: StateView::Opening }
    }

    /// This worker in the state `state`.
    pub open spec fn at(self, state: StateView) -> WorkerView {
        WorkerView { shard_id: self.shard_id, expect_compressed: self.expect_compressed, state }
    }

    /// What this worker puts out for the records of one poll.
    pub open spec fn emissions_for(self, records: Seq<RecordView>) -> Seq<EmissionView> {
        emissions_of(self.shard_id, self.expect_compressed, records)
    }
}

/// The worker that `worker` becomes on `event`, and what it then asks
/// for.
///
/// An opened cursor is polled. The records of a poll are put out; the
/// worker then pauses and polls again, with the cursor that the poll gave
/// and no other, or ends where it gave none. A failure to open or to poll
/// ends the worker. An event that the state does not await changes
/// nothing.
pub open spec fn step_of(worker: WorkerView, event: EventView) -> (WorkerView, ActionView) {
    match (worker.state, event) {
        (StateView::Opening, EventView::CursorOpened { cursor }) => (
            worker.at(StateView::Polling),
            ActionView::Poll { cursor },
        ),
        (StateView::Opening, EventView::OpenFailed { reason }) => (
            worker.at(StateView::Failed),
            ActionView::Finish { emissions: Seq::empty(), failure: Some(reason) },
        ),
        (StateView::Polling, EventView::Polled { records, next: Some(following) }) => (
            worker.at(StateView::Sleeping { cursor: following }),
            ActionView::Pause {
                emissions: worker.emissions_for(records),
                seconds: POLL_INTERVAL_SECONDS as nat,
            },
        ),
        (StateView::Polling, EventView::Polled { records, next: None }) => (
            worker.at(StateView::Closed),
            ActionView::Finish { emissions: worker.emissions_for(records), failure: None },
        ),
        (StateView::Polling, EventView::PollFailed { reason }) => (
            worker.at(StateView::Failed),
            ActionView::Finish { emissions: Seq::empty(), failure: Some(reason) },
        ),
        (StateView::Sleeping { cursor }, EventView::Slept) => (
            worker.at(StateView::Polling),
            ActionView::Poll { cursor },
        ),
        _ => (worker, ActionView::Ignore),
    }
}

impl Worker {
    /// A worker for the shard `shard_id`, which has yet to open its cursor.
    pub fn new(shard_id: String, expect_compressed: bool) -> (worker: Worker)
        ensures
            worker@ == WorkerView::fresh(shard_id@, expect_compressed),
    {
        Worker { shard_id, expect_compressed, state: WorkerState::Opening }
    }

    /// What a new worker asks for first.
    pub fn start(&self) -> (action: WorkerAction)
        ensures
            action@ == ActionView::OpenAtLatest,
    {
        WorkerAction::OpenAtLatest
    }

    /// Whether the worker has ended and has signalled so.
    pub fn ended(&self) -> (ended: bool)
        ensures
            ended == self@.state.ended(),
    {
        match self.state {
            WorkerState::Closed => true,
            WorkerState::Failed => true,
            _ => false,
        }
    }

    /// Takes an event: the worker moves on and says what it asks for next.
    pub fn step(self, event: WorkerEvent) -> (next: (Worker, WorkerAction))
        ensures
            (next.0@, next.1@) == step_of(self@, event@),
    {
        let Worker { shard_id, expect_compressed, state } = self;
        match (state, event) {
            (WorkerState::Opening, WorkerEvent::CursorOpened { cursor }) => (
                Worker { shard_id, expect_compressed, state: WorkerState::Polling },
                WorkerAction::Poll { cursor },
            ),
            (WorkerState::Opening, WorkerEvent::OpenFailed { reason }) => {
                let emissions: Vec<Emission> = Vec::new();
                assert(emissions_view(emissions@) =~= Seq::empty());
                (
                    Worker { shard_id, expect_compressed, state: WorkerState::Failed },
                    WorkerAction::Finish { emissions, failure: Some(reason) },
                )
            },
            (WorkerState::Polling, WorkerEvent::Polled { records, next }) => {
                let emissions = process_records(shard_id.as_str(), expect_compressed, &records);
                match next {
                    Some(following) => (
                        Worker {
                            shard_id,
                            expect_compressed,
                            state: WorkerState::Sleeping { cursor: following },
                        },
                        WorkerAction::Pause { emissions, seconds: POLL_INTERVAL_SECONDS },
                    ),
                    None => (
                        Worker { shard_id, expect_compressed, state: WorkerState::Closed },
                        WorkerAction::Finish { emissions, failure: None },
                    ),
                }
            },
            (WorkerState::Polling, WorkerEvent::PollFailed { reason }) => {
                let emissions: Vec<Emission> = Vec::new();
                assert(emissions_view(emissions@) =~= Seq::empty());
                (
                    Worker { shard_id, expect_compressed, state: WorkerState::Failed },
                    WorkerAction::Finish { emissions, failure: Some(reason) },
                )
            },
            (WorkerState::Sleeping { cursor }, WorkerEvent::Slept) => (
                Worker { shard_id, expect_compressed, state: WorkerState::Polling },
                WorkerAction::Poll { cursor },
            ),
            (state, _) => (Worker { shard_id, expect_compressed, state }, WorkerAction::Ignore),
        }
    }
}

/// What a worker becomes when it takes `events`, one after the other.
pub open spec fn worker_after(worker: WorkerView, events: Seq<EventView>) -> WorkerView
    decreases events.len(),
{
    if events.len() == 0 {
        worker
    } else {
        worker_after(step_of(worker, events.first()).0, events.drop_first())
    }
}

/// The records that an event brings to a worker: those of a poll, where
/// the worker awaited one.
pub open spec fn taken_in(worker: WorkerView, event: EventView) -> Seq<RecordView> {
    match (worker.state, event) {
        (StateView::Polling, EventView::Polled { records, next }) => records,
        _ => Seq::empty(),
    }
}

/// What an action has the worker put out.
pub open spec fn emitted(action: ActionView) -> Seq<EmissionView> {
    match action {
        ActionView::Pause { emissions, seconds } => emissions,
        ActionView::Finish { emissions, failure } => emissions,
        _ => Seq::empty(),
    }
}

/// The records that a worker takes in over `events`, in the order in
/// which it takes them in.
pub open spec fn observed(worker: WorkerView, events: Seq<EventView>) -> Seq<RecordView>
    decreases events.len(),
{
    if events.len() == 0 {
        Seq::empty()
    } else {
        taken_in(worker, events.first()) + observed(
            step_of(worker, events.first()).0,
            events.drop_first(),
        )
    }
}

/// All that a worker puts out over `events`, in the order in which it
/// puts it out.
pub open spec fn put_out(worker: WorkerView, events: Seq<EventView>) -> Seq<EmissionView>
    decreases events.len(),
{
    if events.len() == 0 {
        Seq::empty()
    } else {
        emitted(step_of(worker, events.first()).1) + put_out(
            step_of(worker, events.first()).0,
            events.drop_first(),
        )
    }
}

/// How often a worker signals completion over `events`.
pub open spec fn signals(worker: WorkerView, events: Seq<EventView>) -> nat
    decreases events.len(),
{
    if events.len() == 0 {
        0
    } else {
        let signal: nat = if step_of(worker, events.first()).1 is Finish {
            1
        } else {
            0
        };
        signal + signals(step_of(worker, events.first()).0, events.drop_first())
    }
}

/// Whether sequence numbers never step back along `records`, for the
/// order `precedes`.
pub open spec fn records_in_order(
    records: Seq<RecordView>,
    precedes: spec_fn(Seq<char>, Seq<char>) -> bool,
) -> bool {
    forall|i: int, j: int|
        0 <= i <= j < records.len() ==> precedes(
            #[trigger] records[i].sequence_number,
            #[trigger] records[j].sequence_number,
        )
}

/// Whether sequence numbers never step back along the blocks of
/// `emissions`, for the order `precedes`.
pub open spec fn blocks_in_order(
    emissions: Seq<EmissionView>,
    precedes: spec_fn(Seq<char>, Seq<char>) -> bool,
) -> bool {
    forall|i: int, j: int|
        0 <= i <= j < emissions.len() && (#[trigger] emissions[i]) is Block && (
        #[trigger] emissions[j]) is Block ==> precedes(
            emissions[i]->Block_sequence_number,
            emissions[j]->Block_sequence_number,
        )
}

/// What is put out for two runs of records, one after the other, is what
/// is put out for the first and then what is put out for the second.
pub proof fn lemma_emissions_of_concat(
    shard: Seq<char>,
    expect_compressed: bool,
    first: Seq<RecordView>,
    second: Seq<RecordView>,
)
    ensures
        emissions_of(shard, expect_compressed, first + second) == emissions_of(
            shard,
            expect_compressed,
            first,
        ) + emissions_of(shard, expect_compressed, second),
{
    assert(emissions_of(shard, expect_compressed, first + second) =~= emissions_of(
        shard,
        expect_compressed,
        first,
    ) + emissions_of(shard, expect_compressed, second));
}

/// A step changes nothing of a worker but its state.
pub proof fn law_step_keeps_the_shard(worker: WorkerView, event: EventView)
    ensures
        step_of(worker, event).0.shard_id == worker.shard_id,
        step_of(worker, event).0.expect_compressed == worker.expect_compressed,
{
}

/// A worker signals completion exactly when it ends: the action is
/// `Finish` if and only if the step takes a worker that had not ended to
/// the state `Closed` or `Failed`. A worker that has ended stays as it is
/// and asks for nothing.
pub proof fn law_signal_marks_the_end(worker: WorkerView, event: EventView)
    ensures
        step_of(worker, event).1 is Finish <==> !worker.state.ended() && step_of(
            worker,
            event,
        ).0.state.ended(),
        worker.state.ended() ==> step_of(worker, event) == (worker, ActionView::Ignore),
{
}

/// Over any events a worker signals completion at most once, and exactly
/// once where it ends over them. A worker that had ended before signals no
/// more and stays as it is.
pub proof fn law_one_signal(worker: WorkerView, events: Seq<EventView>)
    ensures
        worker.state.ended() ==> signals(worker, events) == 0,
        worker.state.ended() ==> worker_after(worker, events) == worker,
        !worker.state.ended() ==> signals(worker, events) == (if worker_after(
            worker,
            events,
        ).state.ended() {
            1nat
        } else {
            0nat
        }),
    decreases events.len(),
{
    if events.len() > 0 {
        law_signal_marks_the_end(worker, events.first());
        law_one_signal(step_of(worker, events.first()).0, events.drop_first());
    }
}

/// What a worker puts out over any events is what is put out for the
/// records it took in, one emission for each record, in the order in which
/// the records came, across polls too.
pub proof fn law_emissions_follow_records(worker: WorkerView, events: Seq<EventView>)
    ensures
        put_out(worker, events) == worker.emissions_for(observed(worker, events)),
    decreases events.len(),
{
    if events.len() == 0 {
        assert(worker.emissions_for(Seq::empty()) =~= Seq::empty());
    } else {
        let following = step_of(worker, events.first()).0;
        law_emissions_follow_records(following, events.drop_first());
        lemma_emissions_of_concat(
            worker.shard_id,
            worker.expect_compressed,
            taken_in(worker, events.first()),
            observed(following, events.drop_first()),
        );
        assert(emitted(step_of(worker, events.first()).1) =~= worker.emissions_for(
            taken_in(worker, events.first()),
        ));
    }
}

/// Where the sequence numbers of the records that a worker takes in
/// over consecutive polls never step back, for any order, those of the
/// blocks that it puts out never step back either.
pub proof fn law_sequence_order_kept(
    worker: WorkerView,
    events: Seq<EventView>,
    precedes: spec_fn(Seq<char>, Seq<char>) -> bool,
)
    requires
        records_in_order(observed(worker, events), precedes),
    ensures
        blocks_in_order(put_out(worker, events), precedes),
{
    law_emissions_follow_records(worker, events);
    let records = observed(worker, events);
    let emissions = put_out(worker, events);
    assert forall|i: int, j: int|
        0 <= i <= j < emissions.len() && (#[trigger] emissions[i]) is Block && (
        #[trigger] emissions[j]) is Block implies precedes(
        emissions[i]->Block_sequence_number,
        emissions[j]->Block_sequence_number,
    ) by {
        assert(emissions[i]->Block_sequence_number == records[i].sequence_number);
        assert(emissions[j]->Block_sequence_number == records[j].sequence_number);
    }
}

} // verus!

//! The workers of a stream side by side: what holds of them however the
//! events of the shards interleave.

use crate::consumer::{
    consumer_step_of, workers_for, ConsumerActionView, ConsumerEventView, ConsumerState,
    SettingsView, ShardView,
};
use crate::record::EmissionView;
use crate::worker::{
    emitted, law_signal_marks_the_end, put_out, step_of, worker_after, EventView, WorkerView,
};
use vstd::prelude::*;

verus! {

/// An event that reaches one worker of a fleet.
pub ghost struct Delivery {
    /// The worker's place in the fleet.
    pub worker: int,
    pub event: EventView,
}

/// Whether a delivery reaches a worker of `fleet`.
pub open spec fn reaches(fleet: Seq<WorkerView>, delivery: Delivery) -> bool {
    0 <= delivery.worker < fleet.len()
}

/// The fleet after a delivery: the worker that it reaches takes the event,
/// the others stay as they are.
pub open spec fn deliver(fleet: Seq<WorkerView>, delivery: Delivery) -> Seq<WorkerView> {
    if reaches(fleet, delivery) {
        fleet.update(delivery.worker, step_of(fleet[delivery.worker], delivery.event).0)
    } else {
        fleet
    }
}

/// Whether a delivery makes its worker signal completion.
pub open spec fn signalled(fleet: Seq<WorkerView>, delivery: Delivery) -> bool {
    reaches(fleet, delivery) && step_of(fleet[delivery.worker], delivery.event).1 is Finish
}

/// The fleet after `deliveries`, one after the other.
pub open spec fn fleet_after(fleet: Seq<WorkerView>, deliveries: Seq<Delivery>) -> Seq<WorkerView>
    decreases deliveries.len(),
{
    if deliveries.len() == 0 {
        fleet
    } else {
        fleet_after(deliver(fleet, deliveries.first()), deliveries.drop_first())
    }
}

/// How many completion signals the fleet gives over `deliveries`.
pub open spec fn fleet_signals(fleet: Seq<WorkerView>, deliveries: Seq<Delivery>) -> nat
    decreases deliveries.len(),
{
    if deliveries.len() == 0 {
        0
    } else {
        let signal: nat = if signalled(fleet, deliveries.first()) {
            1
        } else {
            0
        };
        signal + fleet_signals(deliver(fleet, deliveries.first()), deliveries.drop_first())
    }
}

/// The events that `deliveries` bring to the worker at `worker`, in their
/// order.
pub open spec fn events_for(deliveries: Seq<Delivery>, worker: int) -> Seq<EventView>
    decreases deliveries.len(),
{
    if deliveries.len() == 0 {
        Seq::empty()
    } else if deliveries.first().worker == worker {
        seq![deliveries.first().event] + events_for(deliveries.drop_first(), worker)
    } else {
        events_for(deliveries.drop_first(), worker)
    }
}

/// What the worker at `worker` puts out while the fleet takes
/// `deliveries`.
pub open spec fn fleet_put_out(fleet: Seq<WorkerView>, deliveries: Seq<Delivery>, worker: int) -> Seq<
    EmissionView,
>
    decreases deliveries.len(),
{
    if deliveries.len() == 0 {
        Seq::empty()
    } else {
        let first = deliveries.first();
        let shown = if first.worker == worker && reaches(fleet, first) {
            emitted(step_of(fleet[worker], first.event).1)
        } else {
            Seq::empty()
        };
        shown + fleet_put_out(deliver(fleet, first), deliveries.drop_first(), worker)
    }
}

/// How many workers of a fleet have ended.
pub open spec fn ended_count(fleet: Seq<WorkerView>) -> nat
    decreases fleet.len(),
{
    if fleet.len() == 0 {
        0
    } else {
        let last: nat = if fleet.last().state.ended() {
            1
        } else {
            0
        };
        ended_count(fleet.drop_last()) + last
    }
}

/// Whether every worker of a fleet has ended.
pub open spec fn all_ended(fleet: Seq<WorkerView>) -> bool {
    forall|i: int| 0 <= i < fleet.len() ==> (#[trigger] fleet[i]).state.ended()
}

/// The consumer's state after it took `count` completion signals.
pub open spec fn after_completions(settings: SettingsView, state: ConsumerState, count: nat)
    -> ConsumerState
    decreases count,
{
    if count == 0 {
        state
    } else {
        after_completions(
            settings,
            consumer_step_of(settings, state, ConsumerEventView::WorkerCompleted).0,
            (count - 1) as nat,
        )
    }
}

/// Replacing one worker changes the count of ended workers by that
/// worker alone.
proof fn lemma_ended_count_update(fleet: Seq<WorkerView>, at: int, worker: WorkerView)
    requires
        0 <= at < fleet.len(),
    ensures
        ended_count(fleet.update(at, worker)) + (if fleet[at].state.ended() {
            1nat
        } else {
            0nat
        }) == ended_count(fleet) + (if worker.state.ended() {
            1nat
        } else {
            0nat
        }),
    decreases fleet.len(),
{
    let updated = fleet.update(at, worker);
    if at == fleet.len() - 1 {
        assert(updated.drop_last() =~= fleet.drop_last());
    } else {
        assert(updated.drop_last() =~= fleet.drop_last().update(at, worker));
        lemma_ended_count_update(fleet.drop_last(), at, worker);
    }
}

/// Of workers just launched, none has ended.
proof fn lemma_launched_none_ended(shards: Seq<ShardView>, expect_compressed: bool)
    ensures
        ended_count(workers_for(shards, expect_compressed)) == 0,
    decreases shards.len(),
{
    if shards.len() > 0 {
        assert(workers_for(shards, expect_compressed).drop_last() =~= workers_for(
            shards.drop_last(),
            expect_compressed,
        ));
        lemma_launched_none_ended(shards.drop_last(), expect_compressed);
    }
}

/// Where every worker has ended, the count of ended workers is the size
/// of the fleet.
proof fn lemma_all_ended_count(fleet: Seq<WorkerView>)
    requires
        all_ended(fleet),
    ensures
        ended_count(fleet) == fleet.len(),
    decreases fleet.len(),
{
    if fleet.len() > 0 {
        assert(fleet.last() == fleet[fleet.len() - 1]);
        assert forall|i: int| 0 <= i < fleet.drop_last().len() implies (
        #[trigger] fleet.drop_last()[i]).state.ended() by {
            assert(fleet.drop_last()[i] == fleet[i]);
        }
        lemma_all_ended_count(fleet.drop_last());
    }
}

/// A fleet keeps its size.
proof fn lemma_fleet_keeps_size(fleet: Seq<WorkerView>, deliveries: Seq<Delivery>)
    ensures
        fleet_after(fleet, deliveries).len() == fleet.len(),
    decreases deliveries.len(),
{
    if deliveries.len() > 0 {
        lemma_fleet_keeps_size(deliver(fleet, deliveries.first()), deliveries.drop_first());
    }
}

/// A worker is moved by its own events alone. However the events of a
/// fleet interleave, and whatever happens to the other workers, one that
/// fails or ends among them, a worker ends up where its own events take
/// it, and puts out what it puts out over them alone.
pub proof fn law_workers_are_independent(
    fleet: Seq<WorkerView>,
    deliveries: Seq<Delivery>,
    worker: int,
)
    requires
        0 <= worker < fleet.len(),
    ensures
        fleet_after(fleet, deliveries).len() == fleet.len(),
        fleet_after(fleet, deliveries)[worker] == worker_after(
            fleet[worker],
            events_for(deliveries, worker),
        ),
        fleet_put_out(fleet, deliveries, worker) == put_out(
            fleet[worker],
            events_for(deliveries, worker),
        ),
    decreases deliveries.len(),
{
    if deliveries.len() > 0 {
        let first = deliveries.first();
        let rest = deliveries.drop_first();
        law_workers_are_independent(deliver(fleet, first), rest, worker);
        if first.worker == worker {
            let events = events_for(deliveries, worker);
            assert(events.first() == first.event);
            assert(events.drop_first() =~= events_for(rest, worker));
        }
    }
}

/// The completion signals that a fleet gives are as many as the workers
/// that end: each worker that ends signals once, and no other signals.
pub proof fn law_signals_count_the_ended(fleet: Seq<WorkerView>, deliveries: Seq<Delivery>)
    ensures
        fleet_signals(fleet, deliveries) + ended_count(fleet) == ended_count(
            fleet_after(fleet, deliveries),
        ),
    decreases deliveries.len(),
{
    if deliveries.len() > 0 {
        let first = deliveries.first();
        law_signals_count_the_ended(deliver(fleet, first), deliveries.drop_first());
        if reaches(fleet, first) {
            let worker = fleet[first.worker];
            law_signal_marks_the_end(worker, first.event);
            lemma_ended_count_update(fleet, first.worker, step_of(worker, first.event).0);
        }
    }
}

/// For a stream of so many shards, so many workers are launched, one for
/// each shard, and where the events make every worker end, the fleet gives
/// exactly so many completion signals.
pub proof fn law_one_signal_for_each_shard(
    shards: Seq<ShardView>,
    expect_compressed: bool,
    deliveries: Seq<Delivery>,
)
    requires
        all_ended(fleet_after(workers_for(shards, expect_compressed), deliveries)),
    ensures
        workers_for(shards, expect_compressed).len() == shards.len(),
        forall|i: int|
            0 <= i < shards.len() ==> (#[trigger] workers_for(
                shards,
                expect_compressed,
            )[i]).shard_id == shards[i].shard_id,
        fleet_signals(workers_for(shards, expect_compressed), deliveries) == shards.len(),
{
    let fleet = workers_for(shards, expect_compressed);
    lemma_launched_none_ended(shards, expect_compressed);
    law_signals_count_the_ended(fleet, deliveries);
    lemma_fleet_keeps_size(fleet, deliveries);
    lemma_all_ended_count(fleet_after(fleet, deliveries));
}

/// A consumer that has launched `workers` workers, at least one, returns
/// when it has taken exactly so many completion signals: before that it
/// waits for the rest, and the last signal makes it return `Ok`.
pub proof fn law_consumer_awaits_every_worker(settings: SettingsView, workers: usize, taken: nat)
    requires
        0 < workers,
        taken <= workers,
    ensures
        taken < workers ==> after_completions(
            settings,
            ConsumerState::Waiting { remaining: workers },
            taken,
        ) == (ConsumerState::Waiting { remaining: (workers - taken) as usize }),
        taken == workers ==> after_completions(
            settings,
            ConsumerState::Waiting { remaining: workers },
            taken,
        ) == ConsumerState::Done,
        taken < workers ==> consumer_step_of(
            settings,
            ConsumerState::Waiting { remaining: (workers - taken) as usize },
            ConsumerEventView::WorkerCompleted,
        ).1 == (if taken + 1 == workers {
            ConsumerActionView::Return { outcome: Ok(()) }
        } else {
            ConsumerActionView::AwaitCompletion
        }),
    decreases taken,
{
    if taken > 0 {
        if workers > 1 {
            law_consumer_awaits_every_worker(settings, (workers - 1) as usize, (taken - 1) as nat);
        } else {
            assert(after_completions(settings, ConsumerState::Done, 0) == ConsumerState::Done);
        }
    }
}

/// A session ends with its last worker: where the events make every
/// worker of a stream end, the signals that the workers give are exactly
/// those that the consumer waits for before it returns.
pub proof fn law_session_ends_with_the_last_worker(
    settings: SettingsView,
    shards: Seq<ShardView>,
    deliveries: Seq<Delivery>,
)
    requires
        0 < shards.len() <= usize::MAX,
        all_ended(fleet_after(workers_for(shards, settings.expect_compressed), deliveries)),
    ensures
        after_completions(
            settings,
            ConsumerState::Waiting { remaining: shards.len() as usize },
            fleet_signals(workers_for(shards, settings.expect_compressed), deliveries),
        ) == ConsumerState::Done,
{
    law_one_signal_for_each_shard(shards, settings.expect_compressed, deliveries);
    law_consumer_awaits_every_worker(settings, shards.len() as usize, shards.len());
}

} // verus!

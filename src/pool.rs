//! Decisions of the supervisor that keeps a pool of warm workers for one
//! registration.
//!
//! The supervisor starts by queueing one refill signal per pool slot; every
//! refill signal it receives spawns one worker, and every refresh tick queues
//! one more signal so that idle connections are slowly replaced. The pool's
//! cancellation ends it for good.
use vstd::prelude::*;

verus! {

/// Number of workers the pool keeps pending.
pub const MAX_READY_CONNECTIONS: usize = 4;

/// Seconds between two refresh ticks.
pub const REFRESH_CONN_INTERVAL_SECS: u64 = 60;

/// Where a pool supervisor stands.
#[derive(Debug, Clone, Copy, PartialEq, Eq, Structural)]
pub enum PoolPhase {
    /// Created; the initial signals are not queued yet.
    Starting,
    /// Spawning workers on refill signals.
    Running,
    /// Ended: cancelled, or its signal channel closed.
    Terminated,
}

/// What the runtime reports to the supervisor.
#[derive(Debug, Clone, Copy, PartialEq, Eq, Structural)]
pub enum PoolEvent {
    /// The supervisor may start.
    Start,
    /// A refill signal was received.
    RefillSignal,
    /// The refresh timer fired.
    RefreshTick,
    /// The pool's cancellation fired.
    Cancelled,
    /// The refill channel closed.
    ChannelClosed,
}

/// What the runtime is asked to do.
#[derive(Debug, Clone, Copy, PartialEq, Eq, Structural)]
pub enum PoolAction {
    /// Queue this many refill signals.
    QueueRefills(usize),
    /// Spawn one worker.
    SpawnWorker,
    /// Queue one refill signal, without waiting if the channel is full.
    QueueRefill,
    /// Nothing to do.
    Idle,
    /// Stop the supervisor.
    Terminate,
}

/// One step of the supervisor: its next phase and the action it asks for.
pub open spec fn spec_pool_next(phase: PoolPhase, e: PoolEvent) -> (PoolPhase, PoolAction) {
    match phase {
        PoolPhase::Terminated => (PoolPhase::Terminated, PoolAction::Terminate),
        _ => match e {
            PoolEvent::Cancelled => (PoolPhase::Terminated, PoolAction::Terminate),
            PoolEvent::ChannelClosed => (PoolPhase::Terminated, PoolAction::Terminate),
            PoolEvent::Start => if phase == PoolPhase::Starting {
                (PoolPhase::Running, PoolAction::QueueRefills(MAX_READY_CONNECTIONS))
            } else {
                (phase, PoolAction::Idle)
            },
            PoolEvent::RefillSignal => if phase == PoolPhase::Running {
                (phase, PoolAction::SpawnWorker)
            } else {
                (phase, PoolAction::Idle)
            },
            PoolEvent::RefreshTick => if phase == PoolPhase::Running {
                (phase, PoolAction::QueueRefill)
            } else {
                (phase, PoolAction::Idle)
            },
        },
    }
}

/// One step of the supervisor from `phase` on event `e`.
pub fn pool_transition(phase: PoolPhase, e: PoolEvent) -> (r: (PoolPhase, PoolAction))
    ensures
        r == spec_pool_next(phase, e),
{
    match phase {
        PoolPhase::Terminated => (PoolPhase::Terminated, PoolAction::Terminate),
        _ => match e {
            PoolEvent::Cancelled => (PoolPhase::Terminated, PoolAction::Terminate),
            PoolEvent::ChannelClosed => (PoolPhase::Terminated, PoolAction::Terminate),
            PoolEvent::Start => if phase == PoolPhase::Starting {
                (PoolPhase::Running, PoolAction::QueueRefills(MAX_READY_CONNECTIONS))
            } else {
                (phase, PoolAction::Idle)
            },
            PoolEvent::RefillSignal => if phase == PoolPhase::Running {
                (phase, PoolAction::SpawnWorker)
            } else {
                (phase, PoolAction::Idle)
            },
            PoolEvent::RefreshTick => if phase == PoolPhase::Running {
                (phase, PoolAction::QueueRefill)
            } else {
                (phase, PoolAction::Idle)
            },
        },
    }
}

/// The supervisor of one pool.
#[derive(Debug, Clone, Copy, PartialEq, Eq, Structural)]
pub struct PoolSupervisor {
    pub phase: PoolPhase,
}

impl PoolSupervisor {
    /// A supervisor that has not started.
    pub fn new() -> (r: PoolSupervisor)
        ensures
            r.phase == PoolPhase::Starting,
    {
        PoolSupervisor { phase: PoolPhase::Starting }
    }

    /// Takes event `e` and returns the action to perform.
    pub fn step(&mut self, e: PoolEvent) -> (r: PoolAction)
        ensures
            final(self).phase == spec_pool_next(old(self).phase, e).0,
            r == spec_pool_next(old(self).phase, e).1,
    {
        let (next, a) = pool_transition(self.phase, e);
        self.phase = next;
        a
    }
}

/// The phase reached from `phase` after the events `events`, in order.
pub open spec fn spec_pool_run(phase: PoolPhase, events: Seq<PoolEvent>) -> PoolPhase
    decreases events.len(),
{
    if events.len() == 0 {
        phase
    } else {
        spec_pool_next(spec_pool_run(phase, events.drop_last()), events.last()).0
    }
}

/// The action asked for at the `i`-th event of the run from `phase`.
pub open spec fn spec_pool_action_at(phase: PoolPhase, events: Seq<PoolEvent>, i: int) -> PoolAction {
    spec_pool_next(spec_pool_run(phase, events.take(i)), events[i]).1
}

/// The number of workers spawned along the first `n` events of the run from `phase`.
pub open spec fn spec_spawned(phase: PoolPhase, events: Seq<PoolEvent>, n: int) -> nat
    decreases n,
{
    if n <= 0 {
        0
    } else {
        spec_spawned(phase, events, n - 1) + if spec_pool_action_at(phase, events, n - 1)
            == PoolAction::SpawnWorker {
            1nat
        } else {
            0nat
        }
    }
}

/// Starting a pool queues one refill signal per pool slot.
pub proof fn lemma_start_fills_pool()
    ensures
        spec_pool_next(PoolPhase::Starting, PoolEvent::Start) == (
            PoolPhase::Running,
            PoolAction::QueueRefills(MAX_READY_CONNECTIONS),
        ),
{
}

/// A running pool that receives `k` refill signals (one per activated worker)
/// stays running and spawns exactly `k` workers, one per signal.
pub proof fn lemma_refill_signals_spawn(events: Seq<PoolEvent>, k: int)
    requires
        0 <= k <= events.len(),
        forall|i: int| 0 <= i < k ==> events[i] == PoolEvent::RefillSignal,
    ensures
        spec_pool_run(PoolPhase::Running, events.take(k)) == PoolPhase::Running,
        spec_spawned(PoolPhase::Running, events, k) == k,
        forall|i: int|
            0 <= i < k ==> #[trigger] spec_pool_action_at(PoolPhase::Running, events, i)
                == PoolAction::SpawnWorker,
    decreases k,
{
    if k == 0 {
        assert(events.take(0) =~= Seq::<PoolEvent>::empty());
    } else {
        lemma_refill_signals_spawn(events, k - 1);
        assert(events.take(k).drop_last() =~= events.take(k - 1));
    }
}

/// An ended pool stays ended, whatever happens.
pub proof fn lemma_pool_terminated_stays(events: Seq<PoolEvent>)
    ensures
        spec_pool_run(PoolPhase::Terminated, events) == PoolPhase::Terminated,
    decreases events.len(),
{
    if events.len() > 0 {
        lemma_pool_terminated_stays(events.drop_last());
    }
}

/// Once its cancellation fires, a pool ends at once and never spawns again.
pub proof fn lemma_cancelled_pool_spawns_nothing(phase: PoolPhase, events: Seq<PoolEvent>)
    ensures
        spec_pool_next(phase, PoolEvent::Cancelled).0 == PoolPhase::Terminated,
        forall|i: int|
            0 <= i < events.len() ==> #[trigger] spec_pool_action_at(PoolPhase::Terminated, events, i)
                == PoolAction::Terminate,
{
    assert forall|i: int| 0 <= i < events.len() implies #[trigger] spec_pool_action_at(
        PoolPhase::Terminated,
        events,
        i,
    ) == PoolAction::Terminate by {
        lemma_pool_terminated_stays(events.take(i));
    }
}

} // verus!

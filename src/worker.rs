//! Decisions of one reverse-connection worker.
//!
//! A worker dials the proxy and authenticates, retrying transient failures
//! after a capped backoff; then waits, answering pings, for an activation
//! frame; on activation it first asks the pool for a replacement, then
//! connects to the local service and bridges bytes. The surrounding runtime
//! performs each returned action and reports its outcome as the next event.
use vstd::prelude::*;

use crate::protocol::{is_activation, ProxyConnectionMessage};
use crate::retry::{
    new_retry_backoff, next_backoff_ms, retry_delay_ms, spec_retry_delay, MAX_RETRY_DELAY_MS,
};
use crate::router::{spec_port_for, ServicePorts};

verus! {

/// Seconds a pending worker waits for a frame before it gives up.
pub const CONN_PING_TIMEOUT_SECS: u64 = 30;

/// Why a worker ended.
#[derive(Debug, Clone, Copy, PartialEq, Eq, Structural)]
pub enum WorkerExit {
    /// The pool was cancelled.
    Cancelled,
    /// The proxy refused the token; the whole pool ends.
    AuthFatal,
    /// A pending connection failed or broke the protocol.
    PendingLost,
    /// A pending connection saw no frame within the ping timeout.
    PingTimeout,
    /// The local service could not be reached after activation.
    LocalUnavailable,
    /// The bridge between the two streams ended.
    BridgeClosed,
    /// The runtime reported an event that the current phase does not expect.
    Aborted,
}

/// Where a worker stands.
#[derive(Debug, Clone, Copy, PartialEq, Eq, Structural)]
pub enum WorkerPhase {
    /// Opening the TCP and TLS connection to the proxy, or waiting to retry.
    Dialing,
    /// Hello sent; waiting for the proxy's verdict.
    Authenticating,
    /// Authenticated; waiting for an activation frame.
    Pending,
    /// Activated with the given tag; the replacement request is under way.
    Activated(ProxyConnectionMessage),
    /// Connecting to the local service of the given tag.
    Connecting(ProxyConnectionMessage),
    /// Copying bytes between the proxy stream and the local stream.
    Bridging,
    /// Ended, for the given reason.
    Terminated(WorkerExit),
}

/// What the runtime reports after performing an action.
#[derive(Debug, Clone, Copy, PartialEq, Eq, Structural)]
pub enum WorkerEvent {
    /// The worker may (again) attempt to dial: at start and after a backoff sleep.
    Ready,
    /// The TCP and TLS connection to the proxy is up.
    Dialed,
    /// The TCP or TLS connection to the proxy could not be made.
    DialFailed,
    /// A frame was read.
    Frame(ProxyConnectionMessage),
    /// A frame with a code outside the closed set was read.
    UnknownFrame,
    /// A read or write on the proxy stream failed.
    IoError,
    /// No frame arrived within the ping timeout.
    Timeout,
    /// The replacement request was handed to the pool.
    RefillSent,
    /// The local service accepted the connection.
    LocalConnected,
    /// The local service could not be reached.
    LocalFailed,
    /// The bridge between the two streams ended.
    BridgeEnded,
    /// The pool's cancellation fired.
    Cancelled,
}

/// What the runtime is asked to do next.
#[derive(Debug, Clone, Copy, PartialEq, Eq, Structural)]
pub enum WorkerAction {
    /// Open TCP (no delay) and TLS to the proxy.
    Dial,
    /// Write the hello frame and read one frame, with no timeout of its own.
    Authenticate,
    /// Sleep this many milliseconds, then report `Ready`.
    Sleep(u64),
    /// Read one frame, with the ping timeout.
    AwaitFrame,
    /// Write `Pong`, then read one frame with the ping timeout.
    ReplyPong,
    /// Hand one replacement request to the pool.
    EmitRefill,
    /// Connect to this loopback port.
    ConnectLocal(u16),
    /// Copy bytes both ways until either side ends.
    Bridge,
    /// Cancel the whole pool; this worker has ended with `AuthFatal`.
    CancelPool,
    /// Stop; the worker has ended for this reason.
    Stop(WorkerExit),
}

/// The phase of a worker, and whether it has asked the pool for a replacement.
#[derive(Debug, Clone, Copy, PartialEq, Eq, Structural)]
pub struct WorkerState {
    pub phase: WorkerPhase,
    pub refill_sent: bool,
}

/// The state of a fresh worker.
pub open spec fn spec_initial_state() -> WorkerState {
    WorkerState { phase: WorkerPhase::Dialing, refill_sent: false }
}

/// A failure before authentication completes, which is retried.
pub open spec fn is_transient(phase: WorkerPhase, e: WorkerEvent) -> bool {
    match phase {
        WorkerPhase::Dialing => e == WorkerEvent::DialFailed || e == WorkerEvent::IoError || e
            == WorkerEvent::Timeout,
        WorkerPhase::Authenticating => match e {
            WorkerEvent::Frame(m) => m != ProxyConnectionMessage::AuthOk && m
                != ProxyConnectionMessage::AuthFailed,
            WorkerEvent::UnknownFrame => true,
            WorkerEvent::IoError => true,
            WorkerEvent::Timeout => true,
            _ => false,
        },
        _ => false,
    }
}

/// The phase after event `e` in phase `phase`, when `e` is not a cancellation
/// and the worker has not ended.
pub open spec fn spec_next_phase(phase: WorkerPhase, e: WorkerEvent) -> WorkerPhase {
    match phase {
        WorkerPhase::Dialing => match e {
            WorkerEvent::Ready => WorkerPhase::Dialing,
            WorkerEvent::Dialed => WorkerPhase::Authenticating,
            WorkerEvent::DialFailed => WorkerPhase::Dialing,
            WorkerEvent::IoError => WorkerPhase::Dialing,
            WorkerEvent::Timeout => WorkerPhase::Dialing,
            _ => WorkerPhase::Terminated(WorkerExit::Aborted),
        },
        WorkerPhase::Authenticating => match e {
            WorkerEvent::Frame(ProxyConnectionMessage::AuthOk) => WorkerPhase::Pending,
            WorkerEvent::Frame(ProxyConnectionMessage::AuthFailed) => WorkerPhase::Terminated(
                WorkerExit::AuthFatal,
            ),
            WorkerEvent::Frame(_) => WorkerPhase::Dialing,
            WorkerEvent::UnknownFrame => WorkerPhase::Dialing,
            WorkerEvent::IoError => WorkerPhase::Dialing,
            WorkerEvent::Timeout => WorkerPhase::Dialing,
            _ => WorkerPhase::Terminated(WorkerExit::Aborted),
        },
        WorkerPhase::Pending => match e {
            WorkerEvent::Frame(ProxyConnectionMessage::Ping) => WorkerPhase::Pending,
            WorkerEvent::Frame(m) => if is_activation(m) {
                WorkerPhase::Activated(m)
            } else {
                WorkerPhase::Terminated(WorkerExit::PendingLost)
            },
            WorkerEvent::UnknownFrame => WorkerPhase::Terminated(WorkerExit::PendingLost),
            WorkerEvent::IoError => WorkerPhase::Terminated(WorkerExit::PendingLost),
            WorkerEvent::Timeout => WorkerPhase::Terminated(WorkerExit::PingTimeout),
            _ => WorkerPhase::Terminated(WorkerExit::Aborted),
        },
        WorkerPhase::Activated(t) => match e {
            WorkerEvent::RefillSent => if is_activation(t) {
                WorkerPhase::Connecting(t)
            } else {
                WorkerPhase::Terminated(WorkerExit::Aborted)
            },
            _ => WorkerPhase::Terminated(WorkerExit::Aborted),
        },
        WorkerPhase::Connecting(_) => match e {
            WorkerEvent::LocalConnected => WorkerPhase::Bridging,
            WorkerEvent::LocalFailed => WorkerPhase::Terminated(WorkerExit::LocalUnavailable),
            _ => WorkerPhase::Terminated(WorkerExit::Aborted),
        },
        WorkerPhase::Bridging => match e {
            WorkerEvent::BridgeEnded => WorkerPhase::Terminated(WorkerExit::BridgeClosed),
            WorkerEvent::IoError => WorkerPhase::Terminated(WorkerExit::BridgeClosed),
            _ => WorkerPhase::Terminated(WorkerExit::Aborted),
        },
        WorkerPhase::Terminated(x) => WorkerPhase::Terminated(x),
    }
}

/// The action asked for after event `e` in phase `phase`, when `e` is not a
/// cancellation and the worker has not ended; `proposed` is the backoff's
/// proposal, used only when a failure is retried.
pub open spec fn spec_next_action(
    phase: WorkerPhase,
    ports: ServicePorts,
    e: WorkerEvent,
    proposed: Option<u64>,
) -> WorkerAction {
    if is_transient(phase, e) {
        WorkerAction::Sleep(spec_retry_delay(proposed))
    } else {
        match phase {
            WorkerPhase::Dialing => match e {
                WorkerEvent::Ready => WorkerAction::Dial,
                WorkerEvent::Dialed => WorkerAction::Authenticate,
                _ => WorkerAction::Stop(WorkerExit::Aborted),
            },
            WorkerPhase::Authenticating => match e {
                WorkerEvent::Frame(ProxyConnectionMessage::AuthOk) => WorkerAction::AwaitFrame,
                WorkerEvent::Frame(ProxyConnectionMessage::AuthFailed) => WorkerAction::CancelPool,
                _ => WorkerAction::Stop(WorkerExit::Aborted),
            },
            WorkerPhase::Pending => match e {
                WorkerEvent::Frame(ProxyConnectionMessage::Ping) => WorkerAction::ReplyPong,
                WorkerEvent::Frame(m) => if is_activation(m) {
                    WorkerAction::EmitRefill
                } else {
                    WorkerAction::Stop(WorkerExit::PendingLost)
                },
                WorkerEvent::UnknownFrame => WorkerAction::Stop(WorkerExit::PendingLost),
                WorkerEvent::IoError => WorkerAction::Stop(WorkerExit::PendingLost),
                WorkerEvent::Timeout => WorkerAction::Stop(WorkerExit::PingTimeout),
                _ => WorkerAction::Stop(WorkerExit::Aborted),
            },
            WorkerPhase::Activated(t) => match e {
                WorkerEvent::RefillSent => match spec_port_for(ports, t) {
                    Some(port) => WorkerAction::ConnectLocal(port),
                    None => WorkerAction::Stop(WorkerExit::Aborted),
                },
                _ => WorkerAction::Stop(WorkerExit::Aborted),
            },
            WorkerPhase::Connecting(_) => match e {
                WorkerEvent::LocalConnected => WorkerAction::Bridge,
                WorkerEvent::LocalFailed => WorkerAction::Stop(WorkerExit::LocalUnavailable),
                _ => WorkerAction::Stop(WorkerExit::Aborted),
            },
            WorkerPhase::Bridging => match e {
                WorkerEvent::BridgeEnded => WorkerAction::Stop(WorkerExit::BridgeClosed),
                WorkerEvent::IoError => WorkerAction::Stop(WorkerExit::BridgeClosed),
                _ => WorkerAction::Stop(WorkerExit::Aborted),
            },
            WorkerPhase::Terminated(x) => WorkerAction::Stop(x),
        }
    }
}

/// One step of a worker: its next state and the action it asks for. An ended
/// worker stays as it is and asks to stop; a cancellation ends any other.
pub open spec fn spec_next(
    s: WorkerState,
    ports: ServicePorts,
    e: WorkerEvent,
    proposed: Option<u64>,
) -> (WorkerState, WorkerAction) {
    match s.phase {
        WorkerPhase::Terminated(x) => (s, WorkerAction::Stop(x)),
        _ => if e == WorkerEvent::Cancelled {
            (
                WorkerState { phase: WorkerPhase::Terminated(WorkerExit::Cancelled), ..s },
                WorkerAction::Stop(WorkerExit::Cancelled),
            )
        } else {
            let a = spec_next_action(s.phase, ports, e, proposed);
            (
                WorkerState {
                    phase: spec_next_phase(s.phase, e),
                    refill_sent: s.refill_sent || a == WorkerAction::EmitRefill,
                },
                a,
            )
        },
    }
}

/// Whether the step from `s` on `e` retries after a backoff.
pub open spec fn spec_needs_backoff(s: WorkerState, e: WorkerEvent) -> bool {
    !(s.phase is Terminated) && e != WorkerEvent::Cancelled && is_transient(s.phase, e)
}

fn is_transient_exec(phase: WorkerPhase, e: WorkerEvent) -> (r: bool)
    ensures
        r == is_transient(phase, e),
{
    match phase {
        WorkerPhase::Dialing => match e {
            WorkerEvent::DialFailed => true,
            WorkerEvent::IoError => true,
            WorkerEvent::Timeout => true,
            _ => false,
        },
        WorkerPhase::Authenticating => match e {
            WorkerEvent::Frame(ProxyConnectionMessage::AuthOk) => false,
            WorkerEvent::Frame(ProxyConnectionMessage::AuthFailed) => false,
            WorkerEvent::Frame(_) => true,
            WorkerEvent::UnknownFrame => true,
            WorkerEvent::IoError => true,
            WorkerEvent::Timeout => true,
            _ => false,
        },
        _ => false,
    }
}

fn next_phase(phase: WorkerPhase, e: WorkerEvent) -> (r: WorkerPhase)
    ensures
        r == spec_next_phase(phase, e),
{
    match phase {
        WorkerPhase::Dialing => match e {
            WorkerEvent::Ready => WorkerPhase::Dialing,
            WorkerEvent::Dialed => WorkerPhase::Authenticating,
            WorkerEvent::DialFailed => WorkerPhase::Dialing,
            WorkerEvent::IoError => WorkerPhase::Dialing,
            WorkerEvent::Timeout => WorkerPhase::Dialing,
            _ => WorkerPhase::Terminated(WorkerExit::Aborted),
        },
        WorkerPhase::Authenticating => match e {
            WorkerEvent::Frame(ProxyConnectionMessage::AuthOk) => WorkerPhase::Pending,
            WorkerEvent::Frame(ProxyConnectionMessage::AuthFailed) => WorkerPhase::Terminated(
                WorkerExit::AuthFatal,
            ),
            WorkerEvent::Frame(_) => WorkerPhase::Dialing,
            WorkerEvent::UnknownFrame => WorkerPhase::Dialing,
            WorkerEvent::IoError => WorkerPhase::Dialing,
            WorkerEvent::Timeout => WorkerPhase::Dialing,
            _ => WorkerPhase::Terminated(WorkerExit::Aborted),
        },
        WorkerPhase::Pending => match e {
            WorkerEvent::Frame(ProxyConnectionMessage::Ping) => WorkerPhase::Pending,
            WorkerEvent::Frame(m) => if m.is_data() {
                WorkerPhase::Activated(m)
            } else {
                WorkerPhase::Terminated(WorkerExit::PendingLost)
            },
            WorkerEvent::UnknownFrame => WorkerPhase::Terminated(WorkerExit::PendingLost),
            WorkerEvent::IoError => WorkerPhase::Terminated(WorkerExit::PendingLost),
            WorkerEvent::Timeout => WorkerPhase::Terminated(WorkerExit::PingTimeout),
            _ => WorkerPhase::Terminated(WorkerExit::Aborted),
        },
        WorkerPhase::Activated(t) => match e {
            WorkerEvent::RefillSent => if t.is_data() {
                WorkerPhase::Connecting(t)
            } else {
                WorkerPhase::Terminated(WorkerExit::Aborted)
            },
            _ => WorkerPhase::Terminated(WorkerExit::Aborted),
        },
        WorkerPhase::Connecting(_) => match e {
            WorkerEvent::LocalConnected => WorkerPhase::Bridging,
            WorkerEvent::LocalFailed => WorkerPhase::Terminated(WorkerExit::LocalUnavailable),
            _ => WorkerPhase::Terminated(WorkerExit::Aborted),
        },
        WorkerPhase::Bridging => match e {
            WorkerEvent::BridgeEnded => WorkerPhase::Terminated(WorkerExit::BridgeClosed),
            WorkerEvent::IoError => WorkerPhase::Terminated(WorkerExit::BridgeClosed),
            _ => WorkerPhase::Terminated(WorkerExit::Aborted),
        },
        WorkerPhase::Terminated(x) => WorkerPhase::Terminated(x),
    }
}

fn next_action(phase: WorkerPhase, ports: ServicePorts, e: WorkerEvent, proposed: Option<u64>) -> (r:
    WorkerAction)
    ensures
        r == spec_next_action(phase, ports, e, proposed),
{
    if is_transient_exec(phase, e) {
        return WorkerAction::Sleep(retry_delay_ms(proposed));
    }
    match phase {
        WorkerPhase::Dialing => match e {
            WorkerEvent::Ready => WorkerAction::Dial,
            WorkerEvent::Dialed => WorkerAction::Authenticate,
            _ => WorkerAction::Stop(WorkerExit::Aborted),
        },
        WorkerPhase::Authenticating => match e {
            WorkerEvent::Frame(ProxyConnectionMessage::AuthOk) => WorkerAction::AwaitFrame,
            WorkerEvent::Frame(ProxyConnectionMessage::AuthFailed) => WorkerAction::CancelPool,
            _ => WorkerAction::Stop(WorkerExit::Aborted),
        },
        WorkerPhase::Pending => match e {
            WorkerEvent::Frame(ProxyConnectionMessage::Ping) => WorkerAction::ReplyPong,
            WorkerEvent::Frame(m) => if m.is_data() {
                WorkerAction::EmitRefill
            } else {
                WorkerAction::Stop(WorkerExit::PendingLost)
            },
            WorkerEvent::UnknownFrame => WorkerAction::Stop(WorkerExit::PendingLost),
            WorkerEvent::IoError => WorkerAction::Stop(WorkerExit::PendingLost),
            WorkerEvent::Timeout => WorkerAction::Stop(WorkerExit::PingTimeout),
            _ => WorkerAction::Stop(WorkerExit::Aborted),
        },
        WorkerPhase::Activated(t) => match e {
            WorkerEvent::RefillSent => match ports.port_for(t) {
                Some(port) => WorkerAction::ConnectLocal(port),
                None => WorkerAction::Stop(WorkerExit::Aborted),
            },
            _ => WorkerAction::Stop(WorkerExit::Aborted),
        },
        WorkerPhase::Connecting(_) => match e {
            WorkerEvent::LocalConnected => WorkerAction::Bridge,
            WorkerEvent::LocalFailed => WorkerAction::Stop(WorkerExit::LocalUnavailable),
            _ => WorkerAction::Stop(WorkerExit::Aborted),
        },
        WorkerPhase::Bridging => match e {
            WorkerEvent::BridgeEnded => WorkerAction::Stop(WorkerExit::BridgeClosed),
            WorkerEvent::IoError => WorkerAction::Stop(WorkerExit::BridgeClosed),
            _ => WorkerAction::Stop(WorkerExit::Aborted),
        },
        WorkerPhase::Terminated(x) => WorkerAction::Stop(x),
    }
}

/// One step of a worker from state `s` on event `e`, given the backoff's
/// proposal `proposed` for the case where a failure is retried.
pub fn transition(s: WorkerState, ports: ServicePorts, e: WorkerEvent, proposed: Option<u64>) -> (r: (
    WorkerState,
    WorkerAction,
))
    ensures
        r == spec_next(s, ports, e, proposed),
{
    match s.phase {
        WorkerPhase::Terminated(x) => (s, WorkerAction::Stop(x)),
        _ => {
            if e == WorkerEvent::Cancelled {
                (
                    WorkerState {
                        phase: WorkerPhase::Terminated(WorkerExit::Cancelled),
                        refill_sent: s.refill_sent,
                    },
                    WorkerAction::Stop(WorkerExit::Cancelled),
                )
            } else {
                let a = next_action(s.phase, ports, e, proposed);
                let emitted = match a {
                    WorkerAction::EmitRefill => true,
                    _ => false,
                };
                (WorkerState { phase: next_phase(s.phase, e), refill_sent: s.refill_sent || emitted }, a)
            }
        },
    }
}

/// A reverse-connection worker: its state, the loopback ports it routes to,
/// and the backoff that paces its retries.
pub struct Worker {
    pub state: WorkerState,
    pub ports: ServicePorts,
    pub backoff: backoff::ExponentialBackoff,
}

impl WorkerState {
    /// The state of a fresh worker: dialing, with no replacement requested.
    pub fn initial() -> (r: WorkerState)
        ensures
            r == spec_initial_state(),
    {
        WorkerState { phase: WorkerPhase::Dialing, refill_sent: false }
    }
}

impl Worker {
    /// A fresh worker; the runtime starts it with the `Ready` event. Its
    /// backoff grows up to the maximum interval and never gives up: only the
    /// pool's cancellation ends the retries.
    pub fn new(ports: ServicePorts) -> (r: Worker)
        ensures
            r.state == spec_initial_state(),
            r.ports == ports,
    {
        Worker { state: WorkerState::initial(), ports, backoff: new_retry_backoff(MAX_RETRY_DELAY_MS, None) }
    }

    /// Takes event `e` and returns the action to perform. The new state is
    /// the one the step defines; the action is the one the step defines for
    /// some proposal of the backoff, which is consulted only when a failure
    /// is retried.
    pub fn step(&mut self, e: WorkerEvent) -> (r: WorkerAction)
        ensures
            final(self).ports == old(self).ports,
            final(self).state == spec_next(old(self).state, old(self).ports, e, None).0,
            exists|p: Option<u64>| r == spec_next(old(self).state, old(self).ports, e, p).1,
            !spec_needs_backoff(old(self).state, e) ==> r == spec_next(
                old(self).state,
                old(self).ports,
                e,
                None,
            ).1,
    {
        let needs = match self.state.phase {
            WorkerPhase::Terminated(_) => false,
            _ => e != WorkerEvent::Cancelled && is_transient_exec(self.state.phase, e),
        };
        let proposed = if needs {
            next_backoff_ms(&mut self.backoff)
        } else {
            None
        };
        let (next, a) = transition(self.state, self.ports, e, proposed);
        self.state = next;
        a
    }
}

/// The state reached from `s` after the events `events`, in order.
pub open spec fn spec_run(s: WorkerState, ports: ServicePorts, events: Seq<WorkerEvent>) -> WorkerState
    decreases events.len(),
{
    if events.len() == 0 {
        s
    } else {
        spec_next(spec_run(s, ports, events.drop_last()), ports, events.last(), None).0
    }
}

/// The action asked for at the `i`-th event of the run from `s`, given the
/// backoff's proposal at that step.
pub open spec fn spec_action_at(
    s: WorkerState,
    ports: ServicePorts,
    events: Seq<WorkerEvent>,
    i: int,
    proposed: Option<u64>,
) -> WorkerAction {
    spec_next(spec_run(s, ports, events.take(i)), ports, events[i], proposed).1
}

/// The phases of a worker that has been activated and not yet ended.
pub open spec fn is_active(phase: WorkerPhase) -> bool {
    phase is Activated || phase is Connecting || phase is Bridging
}

/// What holds of every state reachable from a fresh worker.
pub open spec fn reachable_inv(s: WorkerState) -> bool {
    &&& is_active(s.phase) ==> s.refill_sent
    &&& s.refill_sent ==> is_active(s.phase) || s.phase is Terminated
}

proof fn lemma_run_step(s: WorkerState, ports: ServicePorts, events: Seq<WorkerEvent>, i: int)
    requires
        0 <= i < events.len(),
    ensures
        spec_run(s, ports, events.take(i + 1)) == spec_next(
            spec_run(s, ports, events.take(i)),
            ports,
            events[i],
            None,
        ).0,
{
    assert(events.take(i + 1).drop_last() =~= events.take(i));
}

proof fn lemma_proposal_only_paces(s: WorkerState, ports: ServicePorts, e: WorkerEvent, p: Option<u64>)
    ensures
        spec_next(s, ports, e, p).0 == spec_next(s, ports, e, None).0,
        spec_needs_backoff(s, e) ==> spec_next(s, ports, e, p).1 is Sleep,
        !spec_needs_backoff(s, e) ==> spec_next(s, ports, e, p).1 == spec_next(s, ports, e, None).1,
{
}

proof fn lemma_reachable(ports: ServicePorts, events: Seq<WorkerEvent>, k: int)
    requires
        0 <= k <= events.len(),
    ensures
        reachable_inv(spec_run(spec_initial_state(), ports, events.take(k))),
        spec_run(spec_initial_state(), ports, events.take(k)).refill_sent <==> exists|j: int|
            0 <= j < k && spec_action_at(spec_initial_state(), ports, events, j, None)
                == WorkerAction::EmitRefill,
    decreases k,
{
    let s0 = spec_initial_state();
    if k == 0 {
        assert(events.take(0) =~= Seq::<WorkerEvent>::empty());
    } else {
        lemma_reachable(ports, events, k - 1);
        lemma_run_step(s0, ports, events, k - 1);
        let prev = spec_run(s0, ports, events.take(k - 1));
        let a = spec_action_at(s0, ports, events, k - 1, None);
        if spec_run(s0, ports, events.take(k)).refill_sent {
            if !prev.refill_sent {
                assert(a == WorkerAction::EmitRefill);
            } else {
                let j = choose|j: int|
                    0 <= j < k - 1 && spec_action_at(s0, ports, events, j, None)
                        == WorkerAction::EmitRefill;
                assert(0 <= j < k);
            }
        }
        if exists|j: int|
            0 <= j < k && spec_action_at(s0, ports, events, j, None) == WorkerAction::EmitRefill {
            let j = choose|j: int|
                0 <= j < k && spec_action_at(s0, ports, events, j, None)
                    == WorkerAction::EmitRefill;
            if j < k - 1 {
                assert(prev.refill_sent);
            }
        }
    }
}

/// Along any run of a fresh worker, a connection to the local service is asked
/// for only after the replacement request has been asked for.
pub proof fn lemma_refill_precedes_local_connect(
    ports: ServicePorts,
    events: Seq<WorkerEvent>,
    i: int,
    p: Option<u64>,
)
    requires
        0 <= i < events.len(),
    ensures
        spec_action_at(spec_initial_state(), ports, events, i, p) is ConnectLocal ==> exists|j: int|
            0 <= j < i && spec_action_at(spec_initial_state(), ports, events, j, None)
                == WorkerAction::EmitRefill,
{
    let s = spec_run(spec_initial_state(), ports, events.take(i));
    lemma_reachable(ports, events, i);
    lemma_proposal_only_paces(s, ports, events[i], p);
}

/// Along any run of a fresh worker, the replacement request is asked for at
/// most once.
pub proof fn lemma_refill_emitted_once(
    ports: ServicePorts,
    events: Seq<WorkerEvent>,
    i: int,
    j: int,
    p: Option<u64>,
    q: Option<u64>,
)
    requires
        0 <= i < j < events.len(),
    ensures
        !(spec_action_at(spec_initial_state(), ports, events, i, p) == WorkerAction::EmitRefill
            && spec_action_at(spec_initial_state(), ports, events, j, q)
            == WorkerAction::EmitRefill),
{
    let s0 = spec_initial_state();
    lemma_proposal_only_paces(spec_run(s0, ports, events.take(i)), ports, events[i], p);
    lemma_proposal_only_paces(spec_run(s0, ports, events.take(j)), ports, events[j], q);
    lemma_reachable(ports, events, j);
    if spec_action_at(s0, ports, events, i, p) == WorkerAction::EmitRefill {
        assert(spec_action_at(s0, ports, events, i, None) == WorkerAction::EmitRefill);
        assert(spec_run(s0, ports, events.take(j)).refill_sent);
    }
}

/// A worker that has reached an active phase has asked for exactly one
/// replacement on the way.
pub proof fn lemma_active_worker_refilled(ports: ServicePorts, events: Seq<WorkerEvent>)
    ensures
        is_active(spec_run(spec_initial_state(), ports, events).phase) ==> exists|j: int|
            0 <= j < events.len() && spec_action_at(spec_initial_state(), ports, events, j, None)
                == WorkerAction::EmitRefill,
{
    assert(events.take(events.len() as int) =~= events);
    lemma_reachable(ports, events, events.len() as int);
}

/// An ended worker stays as it is, whatever happens.
pub proof fn lemma_terminated_stays(s: WorkerState, ports: ServicePorts, events: Seq<WorkerEvent>)
    requires
        s.phase is Terminated,
    ensures
        spec_run(s, ports, events) == s,
    decreases events.len(),
{
    if events.len() > 0 {
        lemma_terminated_stays(s, ports, events.drop_last());
    }
}

/// A worker that reads `AuthFailed` while authenticating asks to cancel the
/// pool and ends with `AuthFatal`; from then on, whatever happens, it stays
/// ended and only asks to stop.
pub proof fn lemma_auth_failed_is_terminal(
    s: WorkerState,
    ports: ServicePorts,
    p: Option<u64>,
    events: Seq<WorkerEvent>,
)
    requires
        s.phase == WorkerPhase::Authenticating,
    ensures
        spec_next(s, ports, WorkerEvent::Frame(ProxyConnectionMessage::AuthFailed), p).1
            == WorkerAction::CancelPool,
        spec_next(s, ports, WorkerEvent::Frame(ProxyConnectionMessage::AuthFailed), p).0.phase
            == WorkerPhase::Terminated(WorkerExit::AuthFatal),
        spec_run(
            spec_next(s, ports, WorkerEvent::Frame(ProxyConnectionMessage::AuthFailed), p).0,
            ports,
            events,
        ) == spec_next(s, ports, WorkerEvent::Frame(ProxyConnectionMessage::AuthFailed), p).0,
        forall|i: int, q: Option<u64>|
            0 <= i < events.len() ==> spec_action_at(
                #[trigger] spec_next(
                    s,
                    ports,
                    WorkerEvent::Frame(ProxyConnectionMessage::AuthFailed),
                    p,
                ).0,
                ports,
                events,
                i,
                q,
            ) == WorkerAction::Stop(WorkerExit::AuthFatal),
{
    let t = spec_next(s, ports, WorkerEvent::Frame(ProxyConnectionMessage::AuthFailed), p).0;
    lemma_terminated_stays(t, ports, events);
    assert forall|i: int, q: Option<u64>| 0 <= i < events.len() implies spec_action_at(
        t,
        ports,
        events,
        i,
        q,
    ) == WorkerAction::Stop(WorkerExit::AuthFatal) by {
        lemma_terminated_stays(t, ports, events.take(i));
    }
}

/// A cancellation ends a worker that has not ended yet, in one step, and it
/// then asks only to stop.
pub proof fn lemma_cancel_ends_worker(s: WorkerState, ports: ServicePorts, p: Option<u64>)
    ensures
        spec_next(s, ports, WorkerEvent::Cancelled, p).0.phase is Terminated,
        spec_next(s, ports, WorkerEvent::Cancelled, p).1 is Stop,
{
}

/// A pending worker that receives only pings stays pending, answers each one
/// with a pong, and never ends itself.
pub proof fn lemma_pings_keep_pending(s: WorkerState, ports: ServicePorts, events: Seq<WorkerEvent>)
    requires
        s.phase == WorkerPhase::Pending,
        forall|k: int| 0 <= k < events.len() ==> events[k] == WorkerEvent::Frame(
            ProxyConnectionMessage::Ping,
        ),
    ensures
        spec_run(s, ports, events) == s,
        forall|i: int, q: Option<u64>|
            0 <= i < events.len() ==> #[trigger] spec_action_at(s, ports, events, i, q)
                == WorkerAction::ReplyPong,
    decreases events.len(),
{
    if events.len() > 0 {
        lemma_pings_keep_pending(s, ports, events.drop_last());
    }
    assert forall|i: int, q: Option<u64>| 0 <= i < events.len() implies spec_action_at(
        s,
        ports,
        events,
        i,
        q,
    ) == WorkerAction::ReplyPong by {
        assert(events.take(i).len() < events.len());
        lemma_pings_keep_pending(s, ports, events.take(i));
    }
}

/// The wait asked for before a new attempt never exceeds the maximum interval.
pub proof fn lemma_retry_wait_bounded(s: WorkerState, ports: ServicePorts, e: WorkerEvent, p: Option<u64>)
    ensures
        spec_next(s, ports, e, p).1 matches WorkerAction::Sleep(d) ==> d <= MAX_RETRY_DELAY_MS,
{
}

} // verus!

use portalbox::pool::{PoolAction, PoolEvent, PoolPhase, PoolSupervisor, MAX_READY_CONNECTIONS};
use portalbox::protocol::ProxyConnectionMessage;
use portalbox::retry::{retry_delay_ms, MAX_RETRY_DELAY_MS};
use portalbox::router::ServicePorts;
use portalbox::worker::{
    transition, Worker, WorkerAction, WorkerEvent, WorkerExit, WorkerPhase, WorkerState,
};

fn authenticated_worker(ports: ServicePorts) -> Worker {
    let mut w = Worker::new(ports);
    assert_eq!(w.step(WorkerEvent::Ready), WorkerAction::Dial);
    assert_eq!(w.step(WorkerEvent::Dialed), WorkerAction::Authenticate);
    assert_eq!(
        w.step(WorkerEvent::Frame(ProxyConnectionMessage::AuthOk)),
        WorkerAction::AwaitFrame
    );
    assert_eq!(w.state.phase, WorkerPhase::Pending);
    w
}

#[test]
fn happy_path_routes_home_activation() {
    let mut w = authenticated_worker(ServicePorts::default());
    assert!(!w.state.refill_sent);
    assert_eq!(
        w.step(WorkerEvent::Frame(ProxyConnectionMessage::DataHome)),
        WorkerAction::EmitRefill
    );
    assert!(w.state.refill_sent);
    assert_eq!(w.step(WorkerEvent::RefillSent), WorkerAction::ConnectLocal(3030));
    assert_eq!(w.step(WorkerEvent::LocalConnected), WorkerAction::Bridge);
    assert_eq!(
        w.step(WorkerEvent::BridgeEnded),
        WorkerAction::Stop(WorkerExit::BridgeClosed)
    );
    assert_eq!(w.state.phase, WorkerPhase::Terminated(WorkerExit::BridgeClosed));
}

#[test]
fn pool_refills_after_activation() {
    let mut pool = PoolSupervisor::new();
    assert_eq!(MAX_READY_CONNECTIONS, 4);
    assert_eq!(pool.step(PoolEvent::Start), PoolAction::QueueRefills(4));
    for _ in 0..4 {
        assert_eq!(pool.step(PoolEvent::RefillSignal), PoolAction::SpawnWorker);
    }
    let mut w = authenticated_worker(ServicePorts::default());
    assert_eq!(
        w.step(WorkerEvent::Frame(ProxyConnectionMessage::DataVscode)),
        WorkerAction::EmitRefill
    );
    // The refill reaches the pool, which spawns a fifth worker.
    assert_eq!(pool.step(PoolEvent::RefillSignal), PoolAction::SpawnWorker);
    assert_eq!(w.step(WorkerEvent::RefillSent), WorkerAction::ConnectLocal(3000));
    assert_eq!(pool.phase, PoolPhase::Running);
}

#[test]
fn auth_failure_kills_pool() {
    let mut pool = PoolSupervisor::new();
    pool.step(PoolEvent::Start);
    let mut w = Worker::new(ServicePorts::default());
    w.step(WorkerEvent::Ready);
    w.step(WorkerEvent::Dialed);
    assert_eq!(
        w.step(WorkerEvent::Frame(ProxyConnectionMessage::AuthFailed)),
        WorkerAction::CancelPool
    );
    assert_eq!(w.state.phase, WorkerPhase::Terminated(WorkerExit::AuthFatal));
    for e in [WorkerEvent::Ready, WorkerEvent::Dialed, WorkerEvent::DialFailed] {
        assert_eq!(w.step(e), WorkerAction::Stop(WorkerExit::AuthFatal));
    }
    assert_eq!(pool.step(PoolEvent::Cancelled), PoolAction::Terminate);
    assert_eq!(pool.step(PoolEvent::RefillSignal), PoolAction::Terminate);
    assert_eq!(pool.step(PoolEvent::RefreshTick), PoolAction::Terminate);
    // Sibling workers end on the pool's cancellation, whatever their phase.
    let mut sibling = authenticated_worker(ServicePorts::default());
    assert_eq!(
        sibling.step(WorkerEvent::Cancelled),
        WorkerAction::Stop(WorkerExit::Cancelled)
    );
    let mut dialing = Worker::new(ServicePorts::default());
    assert_eq!(
        dialing.step(WorkerEvent::Cancelled),
        WorkerAction::Stop(WorkerExit::Cancelled)
    );
}

#[test]
fn ping_keepalive_then_ssh_activation() {
    let ports = ServicePorts::new(3030, 3000, 2222);
    let mut w = authenticated_worker(ports);
    for _ in 0..6 {
        assert_eq!(
            w.step(WorkerEvent::Frame(ProxyConnectionMessage::Ping)),
            WorkerAction::ReplyPong
        );
        assert_eq!(w.state.phase, WorkerPhase::Pending);
    }
    assert_eq!(
        w.step(WorkerEvent::Frame(ProxyConnectionMessage::DataSsh)),
        WorkerAction::EmitRefill
    );
    assert_eq!(w.step(WorkerEvent::RefillSent), WorkerAction::ConnectLocal(2222));
}

#[test]
fn ping_timeout_ends_worker_without_refill() {
    let mut w = authenticated_worker(ServicePorts::default());
    assert_eq!(w.step(WorkerEvent::Timeout), WorkerAction::Stop(WorkerExit::PingTimeout));
    assert!(!w.state.refill_sent);
    let mut pool = PoolSupervisor::new();
    pool.step(PoolEvent::Start);
    assert_eq!(pool.step(PoolEvent::RefreshTick), PoolAction::QueueRefill);
}

#[test]
fn pending_worker_lost_on_unexpected_frame() {
    let mut w = authenticated_worker(ServicePorts::default());
    assert_eq!(
        w.step(WorkerEvent::Frame(ProxyConnectionMessage::AuthOk)),
        WorkerAction::Stop(WorkerExit::PendingLost)
    );
    let mut w = authenticated_worker(ServicePorts::default());
    assert_eq!(w.step(WorkerEvent::UnknownFrame), WorkerAction::Stop(WorkerExit::PendingLost));
    let mut w = authenticated_worker(ServicePorts::default());
    assert_eq!(w.step(WorkerEvent::IoError), WorkerAction::Stop(WorkerExit::PendingLost));
}

#[test]
fn local_service_down_after_refill() {
    let mut w = authenticated_worker(ServicePorts::default());
    w.step(WorkerEvent::Frame(ProxyConnectionMessage::DataHome));
    w.step(WorkerEvent::RefillSent);
    assert_eq!(
        w.step(WorkerEvent::LocalFailed),
        WorkerAction::Stop(WorkerExit::LocalUnavailable)
    );
    assert!(w.state.refill_sent);
}

#[test]
fn backoff_is_capped() {
    let mut w = Worker::new(ServicePorts::default());
    assert_eq!(w.step(WorkerEvent::Ready), WorkerAction::Dial);
    for _ in 0..40 {
        match w.step(WorkerEvent::DialFailed) {
            WorkerAction::Sleep(ms) => assert!(ms <= MAX_RETRY_DELAY_MS),
            other => panic!("unexpected action {:?}", other),
        }
        assert_eq!(w.step(WorkerEvent::Ready), WorkerAction::Dial);
    }
    assert_eq!(w.state.phase, WorkerPhase::Dialing);
}

#[test]
fn transient_auth_failures_are_retried() {
    let mut w = Worker::new(ServicePorts::default());
    w.step(WorkerEvent::Ready);
    w.step(WorkerEvent::Dialed);
    assert!(matches!(
        w.step(WorkerEvent::Frame(ProxyConnectionMessage::Ping)),
        WorkerAction::Sleep(_)
    ));
    assert_eq!(w.state.phase, WorkerPhase::Dialing);
    w.step(WorkerEvent::Dialed);
    assert!(matches!(w.step(WorkerEvent::UnknownFrame), WorkerAction::Sleep(_)));
}

#[test]
fn retry_delay_values() {
    assert_eq!(retry_delay_ms(Some(500)), 500);
    assert_eq!(retry_delay_ms(Some(4000)), 4000);
    assert_eq!(retry_delay_ms(Some(5999)), 4000);
    assert_eq!(retry_delay_ms(None), 4000);
}

#[test]
fn transition_uses_given_proposal() {
    let s = WorkerState::initial();
    let (next, a) = transition(s, ServicePorts::default(), WorkerEvent::DialFailed, Some(750));
    assert_eq!(a, WorkerAction::Sleep(750));
    assert_eq!(next.phase, WorkerPhase::Dialing);
    let (_, a) = transition(s, ServicePorts::default(), WorkerEvent::DialFailed, Some(9000));
    assert_eq!(a, WorkerAction::Sleep(4000));
}

#[test]
fn unexpected_event_aborts_worker() {
    let mut w = Worker::new(ServicePorts::default());
    assert_eq!(w.step(WorkerEvent::BridgeEnded), WorkerAction::Stop(WorkerExit::Aborted));
}

use rustfs::worker::{
    socket_options, ServiceState, Worker, WorkerAction, WorkerEvent, WorkerPhase, WorkerStep, MI_B,
    SHUTDOWN_TIMEOUT_SECS,
};

fn run(events: &[WorkerEvent]) -> (Worker, Vec<WorkerStep>) {
    let (mut worker, first) = Worker::begin();
    let mut steps = vec![first];
    for event in events {
        steps.push(worker.step(*event));
    }
    (worker, steps)
}

fn only(action: WorkerAction) -> WorkerStep {
    WorkerStep {
        publish: None,
        broadcast_shutdown: false,
        action,
    }
}

#[test]
fn worker_is_ready_from_its_start() {
    let (worker, steps) = run(&[]);
    assert_eq!(worker.phase, WorkerPhase::Accepting);
    assert_eq!(
        steps,
        vec![WorkerStep {
            publish: Some(ServiceState::Ready),
            broadcast_shutdown: false,
            action: WorkerAction::Accept,
        }]
    );
}

#[test]
fn connections_are_served_until_a_signal() {
    let (worker, steps) = run(&[
        WorkerEvent::Accepted,
        WorkerEvent::AcceptFailed,
        WorkerEvent::Accepted,
        WorkerEvent::Terminate,
        WorkerEvent::WatchReturned { sole_owner: true },
        WorkerEvent::WaitOver,
    ]);
    assert_eq!(worker.phase, WorkerPhase::Stopped);
    assert_eq!(
        steps[1..],
        [
            only(WorkerAction::Serve),
            only(WorkerAction::Accept),
            only(WorkerAction::Serve),
            WorkerStep {
                publish: Some(ServiceState::Stopping),
                broadcast_shutdown: true,
                action: WorkerAction::ReturnWatch,
            },
            only(WorkerAction::Drain { within_secs: 10 }),
            WorkerStep {
                publish: Some(ServiceState::Stopped),
                broadcast_shutdown: false,
                action: WorkerAction::Finish,
            },
        ]
    );
}

#[test]
fn worker_sleeps_where_connections_hold_the_watch() {
    let (_, steps) = run(&[WorkerEvent::CtrlC, WorkerEvent::WatchReturned { sole_owner: false }]);
    assert_eq!(steps[2], only(WorkerAction::Sleep { secs: 10 }));
    assert_eq!(SHUTDOWN_TIMEOUT_SECS, 10);
}

#[test]
fn only_signals_are_broadcast() {
    for (event, broadcast) in [
        (WorkerEvent::CtrlC, true),
        (WorkerEvent::Interrupt, true),
        (WorkerEvent::Terminate, true),
        (WorkerEvent::ShutdownRequested, false),
    ] {
        let (worker, steps) = run(&[event, WorkerEvent::CtrlC, WorkerEvent::Terminate]);
        assert_eq!(worker.phase, WorkerPhase::Stopping);
        assert_eq!(steps[1].broadcast_shutdown, broadcast);
        assert_eq!(steps[1].publish, Some(ServiceState::Stopping));
        assert_eq!(steps[2], only(WorkerAction::Ignore));
        assert_eq!(steps[3], only(WorkerAction::Ignore));
    }
}

#[test]
fn states_are_published_once_and_in_order() {
    let (_, steps) = run(&[
        WorkerEvent::WaitOver,
        WorkerEvent::WatchReturned { sole_owner: true },
        WorkerEvent::Interrupt,
        WorkerEvent::WaitOver,
        WorkerEvent::Accepted,
        WorkerEvent::WatchReturned { sole_owner: true },
        WorkerEvent::ShutdownRequested,
        WorkerEvent::WaitOver,
        WorkerEvent::WaitOver,
        WorkerEvent::CtrlC,
    ]);
    let published: Vec<ServiceState> = steps.iter().filter_map(|step| step.publish).collect();
    assert_eq!(
        published,
        vec![ServiceState::Ready, ServiceState::Stopping, ServiceState::Stopped]
    );
    let served = steps.iter().filter(|step| step.action == WorkerAction::Serve).count();
    assert_eq!(served, 0);
    let waits = steps
        .iter()
        .filter(|step| step.action == WorkerAction::Drain { within_secs: 10 })
        .count();
    assert_eq!(waits, 1);
}

#[test]
fn sockets_get_no_delay_and_large_buffers() {
    let options = socket_options();
    assert!(options.tcp_nodelay);
    assert_eq!(options.recv_buffer_size, 4_194_304);
    assert_eq!(options.send_buffer_size, 4_194_304);
    assert_eq!(MI_B, 1_048_576);
}

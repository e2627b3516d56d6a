//! The worker that accepts connections until it is told to stop, and then lets
//! those that are open come to their end.
use vstd::prelude::*;

verus! {

/// One mebibyte.
pub const MI_B: usize = 1024 * 1024;

/// How long the worker waits for open connections before it stops, in seconds.
pub const SHUTDOWN_TIMEOUT_SECS: u64 = 10;

/// What is asked for on the socket of every connection. A connection is served
/// though the system may refuse some of it.
#[derive(Clone, Copy, Debug, PartialEq, Eq)]
pub struct SocketOptions {
    pub tcp_nodelay: bool,
    pub recv_buffer_size: usize,
    pub send_buffer_size: usize,
}

/// What is asked for on the socket of every connection: no delay of small
/// packets, and buffers of four mebibytes.
pub fn socket_options() -> (r: SocketOptions)
    ensures
        r.tcp_nodelay,
        r.recv_buffer_size == 4 * 1024 * 1024,
        r.send_buffer_size == 4 * 1024 * 1024,
{
    SocketOptions { tcp_nodelay: true, recv_buffer_size: 4 * MI_B, send_buffer_size: 4 * MI_B }
}

/// The state of the service that the rest of the program sees.
#[derive(Clone, Copy, Debug, PartialEq, Eq)]
pub enum ServiceState {
    Ready,
    Stopping,
    Stopped,
}

/// What the worker is told.
#[derive(Clone, Copy, Debug, PartialEq, Eq)]
pub enum WorkerEvent {
    /// A connection was accepted.
    Accepted,
    /// A connection could not be accepted.
    AcceptFailed,
    /// Ctrl-C was pressed.
    CtrlC,
    /// SIGINT was received.
    Interrupt,
    /// SIGTERM was received.
    Terminate,
    /// The rest of the program asked the worker to stop.
    ShutdownRequested,
    /// The watch over the connections was taken back, which leaves the worker its
    /// only owner or not.
    WatchReturned { sole_owner: bool },
    /// The wait for the connections is over: they ended, or the time is up.
    WaitOver,
}

/// What the worker does.
#[derive(Clone, Copy, Debug, PartialEq, Eq)]
pub enum WorkerAction {
    /// Wait for the next connection.
    Accept,
    /// Serve the connection that was accepted, then wait for the next.
    Serve,
    /// Take back the watch over the connections.
    ReturnWatch,
    /// Have the connections come to their end, within so many seconds.
    Drain { within_secs: u64 },
    /// Wait so many seconds.
    Sleep { secs: u64 },
    /// Nothing more: the worker is done.
    Finish,
    /// Go on as before.
    Ignore,
}

/// What the worker waits for.
#[derive(Clone, Copy, Debug, PartialEq, Eq)]
pub enum WorkerPhase {
    Accepting,
    Stopping,
    Waiting,
    Stopped,
}

/// What follows from an event, in this order.
#[derive(Clone, Copy, Debug, PartialEq, Eq)]
pub struct WorkerStep {
    /// Whether the rest of the program is to be told to stop.
    pub broadcast_shutdown: bool,
    /// The state to make known, if it changed.
    pub publish: Option<ServiceState>,
    /// What to do then.
    pub action: WorkerAction,
}

/// The worker, as far as it has come.
#[derive(Clone, Copy, Debug, PartialEq, Eq)]
pub struct Worker {
    pub phase: WorkerPhase,
}

impl WorkerEvent {
    /// Whether the event comes from outside the program and ends it.
    pub open spec fn is_signal(self) -> bool {
        self is CtrlC || self is Interrupt || self is Terminate
    }

    /// Whether the event has the worker stop.
    pub open spec fn is_stop(self) -> bool {
        self.is_signal() || self is ShutdownRequested
    }
}

impl WorkerStep {
    /// A step that only does something.
    pub open spec fn spec_only(action: WorkerAction) -> WorkerStep {
        WorkerStep { publish: None, broadcast_shutdown: false, action }
    }

    fn only(action: WorkerAction) -> (r: WorkerStep)
        ensures
            r == WorkerStep::spec_only(action),
    {
        WorkerStep { publish: None, broadcast_shutdown: false, action }
    }
}

impl Worker {
    pub open spec fn spec_begin() -> (Worker, WorkerStep) {
        (
            Worker { phase: WorkerPhase::Accepting },
            WorkerStep {
                publish: Some(ServiceState::Ready),
                broadcast_shutdown: false,
                action: WorkerAction::Accept,
            },
        )
    }

    /// What the worker waits for after an event.
    pub open spec fn phase_after(self, event: WorkerEvent) -> WorkerPhase {
        if self.phase is Accepting && event.is_stop() {
            WorkerPhase::Stopping
        } else if self.phase is Stopping && event is WatchReturned {
            WorkerPhase::Waiting
        } else if self.phase is Waiting && event is WaitOver {
            WorkerPhase::Stopped
        } else {
            self.phase
        }
    }

    /// What follows from an event.
    pub open spec fn spec_step(self, event: WorkerEvent) -> WorkerStep {
        match (self.phase, event) {
            (WorkerPhase::Accepting, WorkerEvent::Accepted) => WorkerStep::spec_only(
                WorkerAction::Serve,
            ),
            (WorkerPhase::Accepting, WorkerEvent::AcceptFailed) => WorkerStep::spec_only(
                WorkerAction::Accept,
            ),
            (WorkerPhase::Accepting, _) if event.is_stop() => WorkerStep {
                publish: Some(ServiceState::Stopping),
                broadcast_shutdown: event.is_signal(),
                action: WorkerAction::ReturnWatch,
            },
            (WorkerPhase::Stopping, WorkerEvent::WatchReturned { sole_owner }) => {
                WorkerStep::spec_only(
                    if sole_owner {
                        WorkerAction::Drain { within_secs: SHUTDOWN_TIMEOUT_SECS }
                    } else {
                        WorkerAction::Sleep { secs: SHUTDOWN_TIMEOUT_SECS }
                    },
                )
            },
            (WorkerPhase::Waiting, WorkerEvent::WaitOver) => WorkerStep {
                publish: Some(ServiceState::Stopped),
                broadcast_shutdown: false,
                action: WorkerAction::Finish,
            },
            _ => WorkerStep::spec_only(WorkerAction::Ignore),
        }
    }

    /// Starts the worker, which is ready for connections from then on.
    pub fn begin() -> (r: (Worker, WorkerStep))
        ensures
            r == Worker::spec_begin(),
    {
        (
            Worker { phase: WorkerPhase::Accepting },
            WorkerStep {
                publish: Some(ServiceState::Ready),
                broadcast_shutdown: false,
                action: WorkerAction::Accept,
            },
        )
    }

    /// Tells the worker of an event. One that it does not wait for changes
    /// nothing.
    pub fn step(&mut self, event: WorkerEvent) -> (r: WorkerStep)
        ensures
            final(self).phase == old(self).phase_after(event),
            r == old(self).spec_step(event),
    {
        match self.phase {
            WorkerPhase::Accepting => match event {
                WorkerEvent::Accepted => WorkerStep::only(WorkerAction::Serve),
                WorkerEvent::AcceptFailed => WorkerStep::only(WorkerAction::Accept),
                WorkerEvent::CtrlC | WorkerEvent::Interrupt | WorkerEvent::Terminate => {
                    self.phase = WorkerPhase::Stopping;
                    WorkerStep {
                        publish: Some(ServiceState::Stopping),
                        broadcast_shutdown: true,
                        action: WorkerAction::ReturnWatch,
                    }
                },
                WorkerEvent::ShutdownRequested => {
                    self.phase = WorkerPhase::Stopping;
                    WorkerStep {
                        publish: Some(ServiceState::Stopping),
                        broadcast_shutdown: false,
                        action: WorkerAction::ReturnWatch,
                    }
                },
                _ => WorkerStep::only(WorkerAction::Ignore),
            },
            WorkerPhase::Stopping => match event {
                WorkerEvent::WatchReturned { sole_owner } => {
                    self.phase = WorkerPhase::Waiting;
                    if sole_owner {
                        WorkerStep::only(WorkerAction::Drain { within_secs: SHUTDOWN_TIMEOUT_SECS })
                    } else {
                        WorkerStep::only(WorkerAction::Sleep { secs: SHUTDOWN_TIMEOUT_SECS })
                    }
                },
                _ => WorkerStep::only(WorkerAction::Ignore),
            },
            WorkerPhase::Waiting => match event {
                WorkerEvent::WaitOver => {
                    self.phase = WorkerPhase::Stopped;
                    WorkerStep {
                        publish: Some(ServiceState::Stopped),
                        broadcast_shutdown: false,
                        action: WorkerAction::Finish,
                    }
                },
                _ => WorkerStep::only(WorkerAction::Ignore),
            },
            WorkerPhase::Stopped => WorkerStep::only(WorkerAction::Ignore),
        }
    }
}

/// The worker after a sequence of events.
pub open spec fn after_events(events: Seq<WorkerEvent>) -> Worker
    decreases events.len(),
{
    if events.len() == 0 {
        Worker::spec_begin().0
    } else {
        Worker { phase: after_events(events.drop_last()).phase_after(events.last()) }
    }
}

/// The steps that the worker took, from its start on.
pub open spec fn steps_taken(events: Seq<WorkerEvent>) -> Seq<WorkerStep>
    decreases events.len(),
{
    if events.len() == 0 {
        seq![Worker::spec_begin().1]
    } else {
        steps_taken(events.drop_last()).push(
            after_events(events.drop_last()).spec_step(events.last()),
        )
    }
}

/// The states that some steps made known, in order.
pub open spec fn published(steps: Seq<WorkerStep>) -> Seq<ServiceState>
    decreases steps.len(),
{
    if steps.len() == 0 {
        Seq::empty()
    } else {
        match steps.last().publish {
            Some(state) => published(steps.drop_last()).push(state),
            None => published(steps.drop_last()),
        }
    }
}

/// The number of connections that some steps serve.
pub open spec fn served(steps: Seq<WorkerStep>) -> nat
    decreases steps.len(),
{
    if steps.len() == 0 {
        0
    } else {
        served(steps.drop_last()) + (if steps.last().action is Serve { 1nat } else { 0nat })
    }
}

/// The number of times that some steps tell the rest of the program to stop.
pub open spec fn broadcasts(steps: Seq<WorkerStep>) -> nat
    decreases steps.len(),
{
    if steps.len() == 0 {
        0
    } else {
        broadcasts(steps.drop_last()) + (if steps.last().broadcast_shutdown { 1nat } else { 0nat })
    }
}

/// The events before the first that has the worker stop.
pub open spec fn before_stop(events: Seq<WorkerEvent>) -> Seq<WorkerEvent>
    decreases events.len(),
{
    if events.len() == 0 || events[0].is_stop() {
        Seq::empty()
    } else {
        seq![events[0]] + before_stop(events.drop_first())
    }
}

/// Whether some event has the worker stop.
pub open spec fn has_stop(events: Seq<WorkerEvent>) -> bool {
    before_stop(events).len() < events.len()
}

/// The number of connections that were accepted.
pub open spec fn accepted(events: Seq<WorkerEvent>) -> nat
    decreases events.len(),
{
    if events.len() == 0 {
        0
    } else {
        accepted(events.drop_last()) + (if events.last() is Accepted { 1nat } else { 0nat })
    }
}

/// The seconds that some steps have the worker wait for its connections, at most.
pub open spec fn secs_waited(steps: Seq<WorkerStep>) -> nat
    decreases steps.len(),
{
    if steps.len() == 0 {
        0
    } else {
        secs_waited(steps.drop_last()) + match steps.last().action {
            WorkerAction::Drain { within_secs } => within_secs as nat,
            WorkerAction::Sleep { secs } => secs as nat,
            _ => 0nat,
        }
    }
}

/// The states of a service, in the order in which it goes through them.
pub open spec fn lifecycle() -> Seq<ServiceState> {
    seq![ServiceState::Ready, ServiceState::Stopping, ServiceState::Stopped]
}

/// How many of the states are known in a phase.
pub open spec fn states_known(phase: WorkerPhase) -> int {
    match phase {
        WorkerPhase::Accepting => 1,
        WorkerPhase::Stopping => 2,
        WorkerPhase::Waiting => 2,
        WorkerPhase::Stopped => 3,
    }
}

/// What one more event means for the events before the first stop.
proof fn lemma_before_stop(events: Seq<WorkerEvent>)
    requires
        events.len() > 0,
    ensures
        before_stop(events).is_prefix_of(events),
        has_stop(events.drop_last()) ==> before_stop(events) == before_stop(events.drop_last()),
        !has_stop(events.drop_last()) && events.last().is_stop() ==> before_stop(events)
            == events.drop_last(),
        !has_stop(events.drop_last()) && !events.last().is_stop() ==> before_stop(events) == events,
        has_stop(events) ==> events[before_stop(events).len() as int].is_stop(),
    decreases events.len(),
{
    let earlier = events.drop_last();
    if events.len() == 1 {
        assert(before_stop(earlier) == Seq::<WorkerEvent>::empty());
        assert(before_stop(events.drop_first()) == Seq::<WorkerEvent>::empty());
        if !events[0].is_stop() {
            assert(before_stop(events) == events);
        }
    } else if !events[0].is_stop() {
        lemma_before_stop(events.drop_first());
        assert(events.drop_first().drop_last() == earlier.drop_first());
        assert(earlier[0] == events[0]);
        assert(seq![events[0]] + earlier.drop_first() == earlier);
        assert(seq![events[0]] + events.drop_first() == events);
    }
}

/// The service is made known as ready, then as stopping, then as stopped: each
/// once, in this order, and none before its time.
pub proof fn law_states_are_published_in_order(events: Seq<WorkerEvent>)
    ensures
        published(steps_taken(events)) == lifecycle().take(states_known(after_events(events).phase)),
    decreases events.len(),
{
    let steps = steps_taken(events);
    if events.len() == 0 {
        assert(steps.drop_last() == Seq::<WorkerStep>::empty());
        assert(published(steps.drop_last()) == Seq::<ServiceState>::empty());
        assert(published(steps) == lifecycle().take(1));
    } else {
        law_states_are_published_in_order(events.drop_last());
        assert(steps.drop_last() == steps_taken(events.drop_last()));
        assert(lifecycle().take(2) == lifecycle().take(1).push(ServiceState::Stopping));
        assert(lifecycle().take(3) == lifecycle().take(2).push(ServiceState::Stopped));
    }
}

/// The worker accepts connections until the first event that has it stop, and
/// none from then on.
pub proof fn law_accepts_until_stopped(events: Seq<WorkerEvent>)
    ensures
        after_events(events).phase is Accepting <==> !has_stop(events),
    decreases events.len(),
{
    if events.len() > 0 {
        law_accepts_until_stopped(events.drop_last());
        lemma_before_stop(events);
    }
}

/// Every connection that was accepted before the worker was told to stop is
/// served, and no other.
pub proof fn law_serves_what_it_accepts(events: Seq<WorkerEvent>)
    ensures
        served(steps_taken(events)) == accepted(before_stop(events)),
    decreases events.len(),
{
    let steps = steps_taken(events);
    if events.len() == 0 {
        assert(steps.drop_last() == Seq::<WorkerStep>::empty());
        assert(served(steps.drop_last()) == 0);
    } else {
        let earlier = events.drop_last();
        law_serves_what_it_accepts(earlier);
        law_accepts_until_stopped(earlier);
        lemma_before_stop(events);
        if !has_stop(earlier) {
            if earlier.len() > 0 {
                lemma_before_stop(earlier);
            }
            assert(before_stop(earlier) == earlier);
        }
        assert(steps.drop_last() == steps_taken(earlier));
    }
}

/// The rest of the program is told to stop once where a signal stopped the
/// worker, and not where the program itself did.
pub proof fn law_signals_are_broadcast(events: Seq<WorkerEvent>)
    ensures
        broadcasts(steps_taken(events)) == (if has_stop(events)
            && events[before_stop(events).len() as int].is_signal() {
            1nat
        } else {
            0nat
        }),
    decreases events.len(),
{
    let steps = steps_taken(events);
    if events.len() == 0 {
        assert(steps.drop_last() == Seq::<WorkerStep>::empty());
        assert(broadcasts(steps.drop_last()) == 0);
    } else {
        let earlier = events.drop_last();
        law_signals_are_broadcast(earlier);
        law_accepts_until_stopped(earlier);
        lemma_before_stop(events);
        assert(steps.drop_last() == steps_taken(earlier));
    }
}

/// The worker waits for its connections only once, and no longer than the
/// shutdown timeout.
pub proof fn law_shutdown_is_bounded(events: Seq<WorkerEvent>)
    ensures
        secs_waited(steps_taken(events)) == (match after_events(events).phase {
            WorkerPhase::Accepting => 0nat,
            WorkerPhase::Stopping => 0nat,
            WorkerPhase::Waiting => SHUTDOWN_TIMEOUT_SECS as nat,
            WorkerPhase::Stopped => SHUTDOWN_TIMEOUT_SECS as nat,
        }),
    decreases events.len(),
{
    let steps = steps_taken(events);
    if events.len() == 0 {
        assert(steps.drop_last() == Seq::<WorkerStep>::empty());
        assert(secs_waited(steps.drop_last()) == 0);
    } else {
        law_shutdown_is_bounded(events.drop_last());
        assert(steps.drop_last() == steps_taken(events.drop_last()));
    }
}

/// A worker that is told to stop is done once it has taken back the watch over
/// its connections and waited for them, whether it was the only owner or not.
pub proof fn law_shutdown_completes(
    events: Seq<WorkerEvent>,
    stop: WorkerEvent,
    sole_owner: bool,
)
    requires
        !has_stop(events),
        stop.is_stop(),
    ensures
        ({
            let all = events + seq![
                stop,
                WorkerEvent::WatchReturned { sole_owner },
                WorkerEvent::WaitOver,
            ];
            &&& after_events(all).phase is Stopped
            &&& steps_taken(all).last().action is Finish
            &&& steps_taken(all).last().publish == Some(ServiceState::Stopped)
        }),
{
    let returned = WorkerEvent::WatchReturned { sole_owner };
    let all = events + seq![stop, returned, WorkerEvent::WaitOver];
    law_accepts_until_stopped(events);
    assert(all.drop_last() == events + seq![stop, returned]);
    assert(all.drop_last().drop_last() == events + seq![stop]);
    assert(all.drop_last().drop_last().drop_last() == events);
    assert(after_events(events + seq![stop]).phase is Stopping);
    assert(after_events(events + seq![stop, returned]).phase is Waiting);
}

/// The worker is ready, and accepts connections, from its start.
pub proof fn law_worker_begins_ready()
    ensures
        Worker::spec_begin().0.phase is Accepting,
        Worker::spec_begin().1.publish == Some(ServiceState::Ready),
        !Worker::spec_begin().1.broadcast_shutdown,
        Worker::spec_begin().1.action is Accept,
{
}

/// Every signal and every request to shut down has an accepting worker take back
/// the watch over its connections and make known that it is stopping; a signal,
/// and no request, is passed on to the rest of the program.
pub proof fn law_every_stop_takes_back_the_watch(worker: Worker, event: WorkerEvent)
    requires
        worker.phase is Accepting,
        event is CtrlC || event is Interrupt || event is Terminate || event is ShutdownRequested,
    ensures
        worker.spec_step(event).action is ReturnWatch,
        worker.spec_step(event).publish == Some(ServiceState::Stopping),
        worker.spec_step(event).broadcast_shutdown <==> !(event is ShutdownRequested),
        worker.phase_after(event) is Stopping,
{
}

/// When the worker does what, in whatever phase it is told whatever.
pub proof fn law_worker_does_all_in_its_time(worker: Worker, event: WorkerEvent)
    ensures
        worker.spec_step(event).action is Serve <==> worker.phase is Accepting && event is Accepted,
        worker.spec_step(event).action is Accept <==> worker.phase is Accepting
            && event is AcceptFailed,
        worker.spec_step(event).action is ReturnWatch <==> worker.phase is Accepting
            && worker.phase_after(event) is Stopping,
        worker.spec_step(event).action is Drain <==> worker.phase is Stopping && event
            == (WorkerEvent::WatchReturned { sole_owner: true }),
        worker.spec_step(event).action is Sleep <==> worker.phase is Stopping && event
            == (WorkerEvent::WatchReturned { sole_owner: false }),
        worker.spec_step(event).action is Drain || worker.spec_step(event).action is Sleep
            <==> worker.phase is Stopping && worker.phase_after(event) is Waiting,
        worker.spec_step(event).action is Finish <==> worker.phase is Waiting && event is WaitOver,
        worker.spec_step(event).action is Finish <==> !(worker.phase is Stopped)
            && worker.phase_after(event) is Stopped,
        worker.spec_step(event).action is Ignore ==> worker.phase_after(event) == worker.phase
            && worker.spec_step(event).publish is None
            && !worker.spec_step(event).broadcast_shutdown,
{
}

/// The worker waits for its connections for ten seconds, whether it asks them to
/// come to their end or cannot.
pub proof fn law_worker_waits_ten_seconds(worker: Worker, event: WorkerEvent)
    ensures
        worker.spec_step(event).action matches WorkerAction::Drain { within_secs } ==> within_secs
            == 10,
        worker.spec_step(event).action matches WorkerAction::Sleep { secs } ==> secs == 10,
{
}

/// A state is made known when it changes, and only then: stopping where the worker
/// leaves off accepting, stopped where its wait is over.
pub proof fn law_states_are_published_when_they_change(worker: Worker, event: WorkerEvent)
    ensures
        worker.spec_step(event).publish == Some(ServiceState::Stopping) <==> worker.phase
            is Accepting && !(worker.phase_after(event) is Accepting),
        worker.spec_step(event).publish == Some(ServiceState::Stopped) <==> !(worker.phase
            is Stopped) && worker.phase_after(event) is Stopped,
        worker.spec_step(event).publish != Some(ServiceState::Ready),
        worker.spec_step(event).broadcast_shutdown <==> worker.phase is Accepting && (event is CtrlC
            || event is Interrupt || event is Terminate),
{
}

/// The worker leaves off accepting for a signal or a request to shut down, and for
/// nothing else; from then on it goes from phase to phase, and never back.
pub proof fn law_phases_follow_each_other(worker: Worker, event: WorkerEvent)
    ensures
        worker.phase is Accepting ==> (worker.phase_after(event) is Stopping <==> event is CtrlC
            || event is Interrupt || event is Terminate || event is ShutdownRequested),
        worker.phase is Accepting ==> worker.phase_after(event) is Accepting
            || worker.phase_after(event) is Stopping,
        worker.phase is Stopping ==> worker.phase_after(event) == (if event is WatchReturned {
            WorkerPhase::Waiting
        } else {
            WorkerPhase::Stopping
        }),
        worker.phase is Waiting ==> worker.phase_after(event) == (if event is WaitOver {
            WorkerPhase::Stopped
        } else {
            WorkerPhase::Waiting
        }),
        worker.phase is Stopped ==> worker.phase_after(event) is Stopped,
{
}

/// Whether a step has the worker wait for its connections.
pub open spec fn is_wait(step: WorkerStep) -> bool {
    step.action is Drain || step.action is Sleep
}

/// The worker is never done before it has waited for its connections: along every
/// run, a step that finishes comes after one that takes back the watch and, behind
/// that, one that drains or sleeps.
pub proof fn law_worker_waits_before_it_finishes(events: Seq<WorkerEvent>, k: int)
    requires
        0 <= k < steps_taken(events).len(),
        steps_taken(events)[k].action is Finish,
    ensures
        exists|i: int, j: int|
            0 <= i < j < k && (#[trigger] steps_taken(events)[i]).action is ReturnWatch && is_wait(
                #[trigger] steps_taken(events)[j],
            ),
        after_events(events).phase is Stopped,
    decreases events.len(),
{
    lemma_steps_so_far(events);
    let steps = steps_taken(events);
    if events.len() > 0 {
        let earlier = events.drop_last();
        assert(steps.drop_last() == steps_taken(earlier));
        if k < steps_taken(earlier).len() {
            assert(steps_taken(earlier)[k] == steps[k]);
            law_worker_waits_before_it_finishes(earlier, k);
            let (i, j) = choose|i: int, j: int|
                0 <= i < j < k && (#[trigger] steps_taken(earlier)[i]).action is ReturnWatch
                    && is_wait(#[trigger] steps_taken(earlier)[j]);
            assert(steps[i].action is ReturnWatch && is_wait(steps[j]));
        } else {
            lemma_steps_so_far(earlier);
            let (i, j) = choose|i: int, j: int|
                0 <= i < j < steps_taken(earlier).len() && (#[trigger] steps_taken(
                    earlier,
                )[i]).action is ReturnWatch && is_wait(#[trigger] steps_taken(earlier)[j]);
            assert(steps[i].action is ReturnWatch && is_wait(steps[j]));
        }
    }
}

/// What a worker has done by the time that it waits for something.
proof fn lemma_steps_so_far(events: Seq<WorkerEvent>)
    ensures
        steps_taken(events).len() == events.len() + 1,
        after_events(events).phase is Stopping ==> exists|i: int|
            0 <= i < steps_taken(events).len() && (#[trigger] steps_taken(events)[i]).action
                is ReturnWatch,
        after_events(events).phase is Waiting ==> exists|i: int, j: int|
            0 <= i < j < steps_taken(events).len() && (#[trigger] steps_taken(events)[i]).action
                is ReturnWatch && is_wait(#[trigger] steps_taken(events)[j]),
    decreases events.len(),
{
    if events.len() > 0 {
        let earlier = events.drop_last();
        let steps = steps_taken(events);
        lemma_steps_so_far(earlier);
        assert(steps.drop_last() == steps_taken(earlier));
        let before = after_events(earlier).phase;
        let last = steps.len() - 1;
        if after_events(events).phase is Stopping {
            if before is Stopping {
                let i = choose|i: int|
                    0 <= i < steps_taken(earlier).len() && (#[trigger] steps_taken(
                        earlier,
                    )[i]).action is ReturnWatch;
                assert(steps[i].action is ReturnWatch);
            } else {
                assert(steps[last].action is ReturnWatch);
            }
        } else if after_events(events).phase is Waiting {
            if before is Waiting {
                let (i, j) = choose|i: int, j: int|
                    0 <= i < j < steps_taken(earlier).len() && (#[trigger] steps_taken(
                        earlier,
                    )[i]).action is ReturnWatch && is_wait(#[trigger] steps_taken(earlier)[j]);
                assert(steps[i].action is ReturnWatch && is_wait(steps[j]));
            } else {
                let i = choose|i: int|
                    0 <= i < steps_taken(earlier).len() && (#[trigger] steps_taken(
                        earlier,
                    )[i]).action is ReturnWatch;
                assert(steps[i].action is ReturnWatch && is_wait(steps[last]));
            }
        }
    }
}

} // verus!

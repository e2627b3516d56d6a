//! The start of the server: its steps, in order, what each of them is given, and
//! which of them it cannot do without.
use crate::config::Opt;
use crate::listener::SocketAddress;
use vstd::prelude::*;

verus! {

/// The address that the operator's resolved to.
#[derive(Debug)]
pub struct ServerAddress {
    /// The address.
    pub address: SocketAddress,
    /// The address as it is written.
    pub text: String,
}

impl Clone for ServerAddress {
    fn clone(&self) -> (r: Self)
        ensures
            r == *self,
    {
        ServerAddress { address: self.address, text: self.text.clone() }
    }
}

/// The step that is next, with what it is given of the steps before it.
#[derive(Debug)]
pub enum StartupPhase {
    ResolveAddress,
    OpenListener { server: ServerAddress },
    ReadListenerAddress { server: ServerAddress },
    Announce { server: ServerAddress, listener_ip: String },
    ConfigureAuth,
    BuildAdminRoute,
    ConfigureHost,
    StartObserver,
    SetupTls,
    StartWorker,
    Running,
    Failed,
}

/// What came of a step.
#[derive(Debug)]
pub enum StartupEvent {
    /// The operator's address resolved to an address.
    Resolved(ServerAddress),
    /// The listener is bound to the IP address, as it is written.
    Bound { ip: String },
    /// The step was taken.
    Succeeded,
    /// The step failed.
    Failed,
}

/// What to do next.
#[derive(Debug)]
pub enum StartupAction<'a> {
    /// Parse the operator's address and resolve its host.
    ResolveAddress { address: String },
    /// Open the listener at an address.
    OpenListener { at: SocketAddress },
    /// Read the IP address that the listener is bound to.
    ReadListenerAddress,
    /// Announce the server's endpoints and its root user: the port, the address as
    /// it is written, and the IP address of the listener.
    Announce { port: u16, server_address: String, listener_ip: String },
    /// Set up the authentication of S3 requests with the keys of the root user.
    ConfigureAuth { access_key: String, secret_key: String },
    /// Build the route to the administration, with the console or without it.
    BuildAdminRoute { console_enable: bool },
    /// Set up the domains of virtual-hosted-style requests.
    ConfigureHost { server_domains: &'a Vec<String> },
    /// Start to observe the process, in the background.
    StartObserver,
    /// Set up TLS from a directory.
    SetupTls { tls_path: String },
    /// Start the worker that accepts connections.
    StartWorker,
    /// Nothing more: the server runs.
    Run,
    /// Give up with the error of the step that failed.
    Abort,
}

/// What to do next, as a value.
pub enum StartupActionView {
    ResolveAddress { address: Seq<char> },
    OpenListener { at: SocketAddress },
    ReadListenerAddress,
    Announce { port: u16, server_address: Seq<char>, listener_ip: Seq<char> },
    ConfigureAuth { access_key: Seq<char>, secret_key: Seq<char> },
    BuildAdminRoute { console_enable: bool },
    ConfigureHost { server_domains: Seq<Seq<char>> },
    StartObserver,
    SetupTls { tls_path: Seq<char> },
    StartWorker,
    Run,
    Abort,
}

impl<'a> View for StartupAction<'a> {
    type V = StartupActionView;

    open spec fn view(&self) -> StartupActionView {
        match self {
            StartupAction::ResolveAddress { address } => StartupActionView::ResolveAddress {
                address: address@,
            },
            StartupAction::OpenListener { at } => StartupActionView::OpenListener {
                at: *at,
            },
            StartupAction::ReadListenerAddress => StartupActionView::ReadListenerAddress,
            StartupAction::Announce { port, server_address, listener_ip } =>
                StartupActionView::Announce {
                    port: *port,
                    server_address: server_address@,
                    listener_ip: listener_ip@,
                },
            StartupAction::ConfigureAuth { access_key, secret_key } =>
                StartupActionView::ConfigureAuth {
                    access_key: access_key@,
                    secret_key: secret_key@,
                },
            StartupAction::BuildAdminRoute { console_enable } =>
                StartupActionView::BuildAdminRoute { console_enable: *console_enable },
            StartupAction::ConfigureHost { server_domains } => StartupActionView::ConfigureHost {
                server_domains: crate::host::texts(server_domains@),
            },
            StartupAction::StartObserver => StartupActionView::StartObserver,
            StartupAction::SetupTls { tls_path } => StartupActionView::SetupTls {
                tls_path: tls_path@,
            },
            StartupAction::StartWorker => StartupActionView::StartWorker,
            StartupAction::Run => StartupActionView::Run,
            StartupAction::Abort => StartupActionView::Abort,
        }
    }
}

impl StartupPhase {
    /// Whether the start goes on though the step failed.
    pub open spec fn is_optional(self) -> bool {
        self is Announce || self is ConfigureAuth || self is StartObserver || self is StartWorker
    }

    /// The place of a step in the start.
    pub open spec fn place(self) -> int {
        match self {
            StartupPhase::ResolveAddress => 0,
            StartupPhase::OpenListener { .. } => 1,
            StartupPhase::ReadListenerAddress { .. } => 2,
            StartupPhase::Announce { .. } => 3,
            StartupPhase::ConfigureAuth => 4,
            StartupPhase::BuildAdminRoute => 5,
            StartupPhase::ConfigureHost => 6,
            StartupPhase::StartObserver => 7,
            StartupPhase::SetupTls => 8,
            StartupPhase::StartWorker => 9,
            StartupPhase::Running => 10,
            StartupPhase::Failed => 11,
        }
    }

    /// Whether an event may come of the step: its failure; its success, with what
    /// later steps are given of it.
    pub open spec fn awaits(self, event: StartupEvent) -> bool {
        match self {
            StartupPhase::Running | StartupPhase::Failed => false,
            StartupPhase::ResolveAddress => event is Resolved || event is Failed,
            StartupPhase::ReadListenerAddress { .. } => event is Bound || event is Failed,
            _ => event is Succeeded || event is Failed,
        }
    }

    /// The step after one that was taken, or that the start goes on without.
    pub open spec fn spec_following(self, event: StartupEvent) -> StartupPhase {
        match (self, event) {
            (StartupPhase::ResolveAddress, StartupEvent::Resolved(server)) =>
                StartupPhase::OpenListener { server },
            (StartupPhase::OpenListener { server }, _) => StartupPhase::ReadListenerAddress {
                server,
            },
            (StartupPhase::ReadListenerAddress { server }, StartupEvent::Bound { ip }) =>
                StartupPhase::Announce { server, listener_ip: ip },
            (StartupPhase::Announce { .. }, _) => StartupPhase::ConfigureAuth,
            (StartupPhase::ConfigureAuth, _) => StartupPhase::BuildAdminRoute,
            (StartupPhase::BuildAdminRoute, _) => StartupPhase::ConfigureHost,
            (StartupPhase::ConfigureHost, _) => StartupPhase::StartObserver,
            (StartupPhase::StartObserver, _) => StartupPhase::SetupTls,
            (StartupPhase::SetupTls, _) => StartupPhase::StartWorker,
            (StartupPhase::StartWorker, _) => StartupPhase::Running,
            _ => self,
        }
    }

    /// The step that is next after an event: the following one, unless a step
    /// failed that the server cannot do without. An event that cannot come of the
    /// step changes nothing.
    pub open spec fn spec_next(self, event: StartupEvent) -> StartupPhase {
        if !self.awaits(event) {
            self
        } else if event is Failed && !self.is_optional() {
            StartupPhase::Failed
        } else {
            self.spec_following(event)
        }
    }
}

/// The start of a server, as far as it has come.
#[derive(Debug)]
pub struct Startup<'a> {
    /// What the operator configured.
    pub opt: &'a Opt,
    /// The step that is next.
    pub phase: StartupPhase,
}

impl<'a> Startup<'a> {
    /// The directory of certificates, which is empty where none is configured.
    pub open spec fn spec_tls_path(self) -> Seq<char> {
        match self.opt.tls_path {
            Some(path) => path@,
            None => Seq::empty(),
        }
    }

    /// What to do next.
    pub open spec fn spec_action(self) -> StartupActionView {
        match self.phase {
            StartupPhase::ResolveAddress => StartupActionView::ResolveAddress {
                address: self.opt.address@,
            },
            StartupPhase::OpenListener { server } => StartupActionView::OpenListener {
                at: server.address,
            },
            StartupPhase::ReadListenerAddress { .. } => StartupActionView::ReadListenerAddress,
            StartupPhase::Announce { server, listener_ip } => StartupActionView::Announce {
                port: server.address.spec_port(),
                server_address: server.text@,
                listener_ip: listener_ip@,
            },
            StartupPhase::ConfigureAuth => StartupActionView::ConfigureAuth {
                access_key: self.opt.access_key@,
                secret_key: self.opt.secret_key@,
            },
            StartupPhase::BuildAdminRoute => StartupActionView::BuildAdminRoute {
                console_enable: self.opt.console_enable,
            },
            StartupPhase::ConfigureHost => StartupActionView::ConfigureHost {
                server_domains: crate::host::texts(self.opt.server_domains@),
            },
            StartupPhase::StartObserver => StartupActionView::StartObserver,
            StartupPhase::SetupTls => StartupActionView::SetupTls {
                tls_path: self.spec_tls_path(),
            },
            StartupPhase::StartWorker => StartupActionView::StartWorker,
            StartupPhase::Running => StartupActionView::Run,
            StartupPhase::Failed => StartupActionView::Abort,
        }
    }

    /// What to do next.
    pub fn action(&self) -> (r: StartupAction<'a>)
        ensures
            r@ == self.spec_action(),
    {
        match &self.phase {
            StartupPhase::ResolveAddress => StartupAction::ResolveAddress {
                address: self.opt.address.clone(),
            },
            StartupPhase::OpenListener { server } => StartupAction::OpenListener {
                at: server.address,
            },
            StartupPhase::ReadListenerAddress { .. } => StartupAction::ReadListenerAddress,
            StartupPhase::Announce { server, listener_ip } => StartupAction::Announce {
                port: server.address.port(),
                server_address: server.text.clone(),
                listener_ip: listener_ip.clone(),
            },
            StartupPhase::ConfigureAuth => StartupAction::ConfigureAuth {
                access_key: self.opt.access_key.clone(),
                secret_key: self.opt.secret_key.clone(),
            },
            StartupPhase::BuildAdminRoute => StartupAction::BuildAdminRoute {
                console_enable: self.opt.console_enable,
            },
            StartupPhase::ConfigureHost => StartupAction::ConfigureHost {
                server_domains: &self.opt.server_domains,
            },
            StartupPhase::StartObserver => StartupAction::StartObserver,
            StartupPhase::SetupTls => StartupAction::SetupTls {
                tls_path: match &self.opt.tls_path {
                    Some(path) => path.clone(),
                    None => String::new(),
                },
            },
            StartupPhase::StartWorker => StartupAction::StartWorker,
            StartupPhase::Running => StartupAction::Run,
            StartupPhase::Failed => StartupAction::Abort,
        }
    }

    /// Takes what came of the step that was next.
    pub fn step(&mut self, event: StartupEvent)
        ensures
            final(self).opt == old(self).opt,
            final(self).phase == old(self).phase.spec_next(event),
    {
        let next = match (&self.phase, event) {
            (StartupPhase::ResolveAddress, StartupEvent::Resolved(server)) => Some(
                StartupPhase::OpenListener { server },
            ),
            (StartupPhase::OpenListener { server }, StartupEvent::Succeeded) => Some(
                StartupPhase::ReadListenerAddress { server: server.clone() },
            ),
            (StartupPhase::ReadListenerAddress { server }, StartupEvent::Bound { ip }) => Some(
                StartupPhase::Announce { server: server.clone(), listener_ip: ip },
            ),
            (StartupPhase::Announce { .. }, StartupEvent::Succeeded | StartupEvent::Failed) => Some(
                StartupPhase::ConfigureAuth,
            ),
            (StartupPhase::ConfigureAuth, StartupEvent::Succeeded | StartupEvent::Failed) => Some(
                StartupPhase::BuildAdminRoute,
            ),
            (StartupPhase::BuildAdminRoute, StartupEvent::Succeeded) => Some(
                StartupPhase::ConfigureHost,
            ),
            (StartupPhase::ConfigureHost, StartupEvent::Succeeded) => Some(
                StartupPhase::StartObserver,
            ),
            (StartupPhase::StartObserver, StartupEvent::Succeeded | StartupEvent::Failed) => Some(
                StartupPhase::SetupTls,
            ),
            (StartupPhase::SetupTls, StartupEvent::Succeeded) => Some(StartupPhase::StartWorker),
            (StartupPhase::StartWorker, StartupEvent::Succeeded | StartupEvent::Failed) => Some(
                StartupPhase::Running,
            ),
            (StartupPhase::Running | StartupPhase::Failed, _) => None,
            (_, StartupEvent::Failed) => Some(StartupPhase::Failed),
            _ => None,
        };
        match next {
            Some(phase) => {
                self.phase = phase;
            },
            None => {},
        }
    }
}

/// Begins to start a server.
pub fn start_http_server(opt: &Opt) -> (r: Startup<'_>)
    ensures
        *r.opt == *opt,
        r.phase is ResolveAddress,
{
    Startup { opt, phase: StartupPhase::ResolveAddress }
}

/// The step that is next after a sequence of events.
pub open spec fn after_events(events: Seq<StartupEvent>) -> StartupPhase
    decreases events.len(),
{
    if events.len() == 0 {
        StartupPhase::ResolveAddress
    } else {
        after_events(events.drop_last()).spec_next(events.last())
    }
}

/// The events that came of a step, in the order of the steps.
pub open spec fn awaited(events: Seq<StartupEvent>) -> Seq<StartupEvent>
    decreases events.len(),
{
    if events.len() == 0 {
        Seq::empty()
    } else if after_events(events.drop_last()).awaits(events.last()) {
        awaited(events.drop_last()).push(events.last())
    } else {
        awaited(events.drop_last())
    }
}

/// Whether the start goes on though the step at a place failed: the announcement,
/// the authentication, which no input makes fail, and the observer and the worker,
/// which run beside it.
pub open spec fn is_optional_place(place: int) -> bool {
    place == 3 || place == 4 || place == 7 || place == 9
}

/// Whether no step failed that the server cannot do without.
pub open spec fn all_went_well(outcomes: Seq<StartupEvent>) -> bool {
    forall|i: int|
        0 <= i < outcomes.len() ==> !((#[trigger] outcomes[i]) is Failed) || is_optional_place(i)
}

/// The steps are taken one after the other, as long as none fails that the server
/// cannot do without; where one does, the start is given up and no later step is
/// taken. So the worker is started only when the address was resolved, the
/// listener is open, and the routes, the domains and TLS are set up.
pub proof fn law_startup_follows_its_sequence(events: Seq<StartupEvent>)
    ensures
        all_went_well(awaited(events)) ==> after_events(events).place() == awaited(events).len(),
        !all_went_well(awaited(events)) ==> after_events(events) is Failed,
        awaited(events).len() <= 10,
    decreases events.len(),
{
    if events.len() > 0 {
        let earlier = events.drop_last();
        let before = after_events(earlier);
        law_startup_follows_its_sequence(earlier);
        if before.awaits(events.last()) {
            let k = awaited(earlier).len() as int;
            assert(all_went_well(awaited(earlier)));
            assert(before.is_optional() <==> is_optional_place(k));
            assert(awaited(events)[k] == events.last());
            if events.last() is Failed && !is_optional_place(k) {
                assert(!all_went_well(awaited(events)));
            } else {
                assert(all_went_well(awaited(events)));
            }
        }
    }
}

/// The listener is opened at the address that the operator's resolved to, and the
/// address that is announced, with its port, is that one too; the IP address is
/// the one that the listener was bound to.
pub proof fn law_server_address_is_kept(opt: Opt, events: Seq<StartupEvent>)
    ensures
        ({
            let startup = Startup { opt: &opt, phase: after_events(events) };
            let answers = awaited(events);
            &&& startup.spec_action() matches StartupActionView::OpenListener { at } ==> {
                &&& answers.len() == 1
                &&& answers[0] matches StartupEvent::Resolved(server)
                &&& at == server.address
            }
            &&& startup.spec_action() matches StartupActionView::Announce {
                port,
                server_address,
                listener_ip,
            } ==> {
                &&& answers.len() == 3
                &&& answers[0] matches StartupEvent::Resolved(server)
                &&& port == server.address.spec_port()
                &&& server_address == server.text@
                &&& answers[2] matches StartupEvent::Bound { ip }
                &&& listener_ip == ip@
            }
        }),
{
    lemma_answers_are_kept(events);
}

/// What the steps are given is what came of the steps before them.
proof fn lemma_answers_are_kept(events: Seq<StartupEvent>)
    ensures
        match after_events(events) {
            StartupPhase::ResolveAddress => awaited(events).len() == 0,
            StartupPhase::OpenListener { server } => awaited(events).len() == 1 && awaited(
                events,
            )[0] == StartupEvent::Resolved(server),
            StartupPhase::ReadListenerAddress { server } => awaited(events).len() == 2 && awaited(
                events,
            )[0] == StartupEvent::Resolved(server),
            StartupPhase::Announce { server, listener_ip } => {
                &&& awaited(events).len() == 3
                &&& awaited(events)[0] == StartupEvent::Resolved(server)
                &&& awaited(events)[2] == StartupEvent::Bound { ip: listener_ip }
            },
            _ => true,
        },
    decreases events.len(),
{
    if events.len() > 0 {
        lemma_answers_are_kept(events.drop_last());
    }
}

/// What the steps are given of what the operator configured is just that: the
/// address, the keys of the root user, whether there is a console, the domains,
/// and the directory of certificates, which is empty where none is configured.
pub proof fn law_steps_are_given_the_options(opt: Opt, events: Seq<StartupEvent>, i: int)
    ensures
        ({
            let startup = Startup { opt: &opt, phase: after_events(events) };
            &&& startup.spec_action() matches StartupActionView::ResolveAddress { address }
                ==> address == opt.address@
            &&& startup.spec_action() matches StartupActionView::ConfigureAuth {
                access_key,
                secret_key,
            } ==> access_key == opt.access_key@ && secret_key == opt.secret_key@
            &&& startup.spec_action() matches StartupActionView::BuildAdminRoute { console_enable }
                ==> console_enable == opt.console_enable
            &&& startup.spec_action() matches StartupActionView::ConfigureHost { server_domains }
                ==> {
                &&& server_domains.len() == opt.server_domains@.len()
                &&& 0 <= i < server_domains.len() ==> server_domains[i] == opt.server_domains@[i]@
            }
            &&& startup.spec_action() matches StartupActionView::SetupTls { tls_path } ==> {
                &&& opt.tls_path is None ==> tls_path.len() == 0
                &&& opt.tls_path matches Some(path) ==> tls_path == path@
            }
        }),
{
}

/// Two servers that went through the same events take the same step next, whatever
/// their options.
pub proof fn law_options_do_not_change_the_steps(opt: Opt, events: Seq<StartupEvent>)
    ensures
        ({
            let phase = after_events(events);
            let action = (Startup { opt: &opt, phase }).spec_action();
            &&& action is ResolveAddress <==> phase is ResolveAddress
            &&& action is OpenListener <==> phase is OpenListener
            &&& action is ReadListenerAddress <==> phase is ReadListenerAddress
            &&& action is Announce <==> phase is Announce
            &&& action is ConfigureAuth <==> phase is ConfigureAuth
            &&& action is BuildAdminRoute <==> phase is BuildAdminRoute
            &&& action is ConfigureHost <==> phase is ConfigureHost
            &&& action is StartObserver <==> phase is StartObserver
            &&& action is SetupTls <==> phase is SetupTls
            &&& action is StartWorker <==> phase is StartWorker
            &&& action is Run <==> phase is Running
            &&& action is Abort <==> phase is Failed
        }),
{
}

/// Whatever address the operator's resolves to and whatever the listener is bound
/// to, a start of which no step fails goes through all of them, to the end.
pub proof fn law_start_succeeds_with_its_steps(server: ServerAddress, ip: String)
    ensures
        StartupPhase::ResolveAddress.spec_next(StartupEvent::Resolved(server)) == (
        StartupPhase::OpenListener { server }),
        (StartupPhase::OpenListener { server }).spec_next(StartupEvent::Succeeded) == (
        StartupPhase::ReadListenerAddress { server }),
        (StartupPhase::ReadListenerAddress { server }).spec_next(StartupEvent::Bound { ip }) == (
        StartupPhase::Announce { server, listener_ip: ip }),
        (StartupPhase::Announce { server, listener_ip: ip }).spec_next(
            StartupEvent::Succeeded,
        ) is ConfigureAuth,
        StartupPhase::ConfigureAuth.spec_next(StartupEvent::Succeeded) is BuildAdminRoute,
        StartupPhase::BuildAdminRoute.spec_next(StartupEvent::Succeeded) is ConfigureHost,
        StartupPhase::ConfigureHost.spec_next(StartupEvent::Succeeded) is StartObserver,
        StartupPhase::StartObserver.spec_next(StartupEvent::Succeeded) is SetupTls,
        StartupPhase::SetupTls.spec_next(StartupEvent::Succeeded) is StartWorker,
        StartupPhase::StartWorker.spec_next(StartupEvent::Succeeded) is Running,
{
}

/// A step that fails ends the start where the server cannot do without it, and is
/// passed over where it can; what has ended stays as it is.
pub proof fn law_needed_steps_may_not_fail(phase: StartupPhase, event: StartupEvent)
    ensures
        phase is ResolveAddress || phase is OpenListener || phase is ReadListenerAddress
            || phase is BuildAdminRoute || phase is ConfigureHost || phase is SetupTls
            ==> phase.spec_next(StartupEvent::Failed) is Failed,
        phase is Announce ==> phase.spec_next(StartupEvent::Failed) is ConfigureAuth,
        phase is ConfigureAuth ==> phase.spec_next(StartupEvent::Failed) is BuildAdminRoute,
        phase is StartObserver ==> phase.spec_next(StartupEvent::Failed) is SetupTls,
        phase is StartWorker ==> phase.spec_next(StartupEvent::Failed) is Running,
        phase is Running ==> phase.spec_next(event) is Running,
        phase is Failed ==> phase.spec_next(event) is Failed,
        !(event is Failed) ==> (phase.spec_next(event) is Failed <==> phase is Failed),
{
}

/// No step is passed over for an answer that it did not give: the address waits for
/// an address, the bound listener for its IP address, and every other step for its
/// own end.
pub proof fn law_other_answers_change_nothing(phase: StartupPhase, event: StartupEvent)
    ensures
        event is Resolved && !(phase is ResolveAddress) ==> phase.spec_next(event) == phase,
        event is Bound && !(phase is ReadListenerAddress) ==> phase.spec_next(event) == phase,
        event is Succeeded && (phase is ResolveAddress || phase is ReadListenerAddress)
            ==> phase.spec_next(event) == phase,
{
}

/// The listener opens at the resolved address, whatever it is, and what is announced
/// is its port, as it is written, and the IP address that the listener is bound to.
pub proof fn law_actions_are_given_the_address(opt: Opt, server: ServerAddress, ip: String)
    ensures
        (Startup { opt: &opt, phase: StartupPhase::OpenListener { server } }).spec_action() == (
        StartupActionView::OpenListener { at: server.address }),
        (Startup {
            opt: &opt,
            phase: StartupPhase::Announce { server, listener_ip: ip },
        }).spec_action() == (StartupActionView::Announce {
            port: match server.address {
                SocketAddress::V4 { port, .. } => port,
                SocketAddress::V6 { port, .. } => port,
            },
            server_address: server.text@,
            listener_ip: ip@,
        }),
{
}

/// The view of an action is of the same variant and has its values, texts by their
/// characters.
pub proof fn law_action_views_keep_values(
    a: String,
    b: String,
    at: SocketAddress,
    port: u16,
    console_enable: bool,
    domains: Vec<String>,
    i: int,
)
    ensures
        (StartupAction::ResolveAddress { address: a })@ == (StartupActionView::ResolveAddress {
            address: a@,
        }),
        (StartupAction::OpenListener { at })@ == (StartupActionView::OpenListener { at }),
        StartupAction::ReadListenerAddress@ is ReadListenerAddress,
        (StartupAction::Announce { port, server_address: a, listener_ip: b })@ == (
        StartupActionView::Announce { port, server_address: a@, listener_ip: b@ }),
        (StartupAction::ConfigureAuth { access_key: a, secret_key: b })@ == (
        StartupActionView::ConfigureAuth { access_key: a@, secret_key: b@ }),
        (StartupAction::BuildAdminRoute { console_enable })@ == (
        StartupActionView::BuildAdminRoute { console_enable }),
        (StartupAction::ConfigureHost { server_domains: &domains })@ matches
            StartupActionView::ConfigureHost { server_domains } && server_domains.len()
            == domains@.len() && (0 <= i < domains@.len() ==> server_domains[i] == domains@[i]@),
        StartupAction::StartObserver@ is StartObserver,
        (StartupAction::SetupTls { tls_path: a })@ == (StartupActionView::SetupTls {
            tls_path: a@,
        }),
        StartupAction::StartWorker@ is StartWorker,
        StartupAction::Run@ is Run,
        StartupAction::Abort@ is Abort,
{
}

} // verus!

//! How the listening socket is opened: which operations, in which order, and
//! what the failure of each of them leads to.
use crate::backlog::{get_listen_backlog, SomaxconnReading};
#[allow(unused_imports)]
use crate::backlog;
use vstd::prelude::*;

verus! {

/// The address of a socket.
#[derive(Clone, Copy, Debug, PartialEq, Eq)]
pub enum SocketAddress {
    /// An IPv4 address, as a number in network order, and a port.
    V4 { ipv4: u32, port: u16 },
    /// An IPv6 address, as a number in network order, and a port.
    V6 { ipv6: u128, port: u16, flowinfo: u32, scope_id: u32 },
}

/// The address family of a socket.
#[derive(Clone, Copy, Debug, PartialEq, Eq)]
pub enum Family {
    Ipv4,
    Ipv6,
}

impl SocketAddress {
    pub open spec fn spec_port(self) -> u16 {
        match self {
            SocketAddress::V4 { port, .. } => port,
            SocketAddress::V6 { port, .. } => port,
        }
    }

    pub open spec fn spec_family(self) -> Family {
        match self {
            SocketAddress::V4 { .. } => Family::Ipv4,
            SocketAddress::V6 { .. } => Family::Ipv6,
        }
    }

    /// The unspecified IPv4 address (0.0.0.0) with the same port.
    pub open spec fn spec_fallback(self) -> SocketAddress {
        SocketAddress::V4 { ipv4: 0, port: self.spec_port() }
    }

    /// The port.
    pub fn port(&self) -> (r: u16)
        ensures
            r == self.spec_port(),
    {
        match self {
            SocketAddress::V4 { port, .. } => *port,
            SocketAddress::V6 { port, .. } => *port,
        }
    }

    /// The address family.
    pub fn family(&self) -> (r: Family)
        ensures
            r == self.spec_family(),
    {
        match self {
            SocketAddress::V4 { .. } => Family::Ipv4,
            SocketAddress::V6 { .. } => Family::Ipv6,
        }
    }

    /// Every IPv4 interface, at the same port.
    pub fn fallback(&self) -> (r: SocketAddress)
        ensures
            r == self.spec_fallback(),
    {
        SocketAddress::V4 { ipv4: 0, port: self.port() }
    }
}

/// One operation on the way to a listener.
#[derive(Clone, Copy, Debug, PartialEq, Eq)]
pub enum SocketAction {
    /// Create a TCP stream socket, which replaces the one made before.
    Create(Family),
    /// Let an IPv6 socket take IPv4 connections too (`IPV6_V6ONLY=false`).
    AllowIpv4,
    /// Allow the local address to be reused.
    ReuseAddress,
    /// Make the socket non-blocking.
    Nonblocking,
    /// Bind the socket to an address.
    Bind(SocketAddress),
    /// Listen with a backlog.
    Listen(i32),
    /// Hand the socket over to the runtime.
    Adopt,
    /// Nothing is left to do: the listener is ready.
    Ready,
    /// Give up with the error of the operation that failed.
    Abort,
}

/// The operation that is to be performed next.
#[derive(Clone, Copy, Debug, PartialEq, Eq)]
pub enum ListenerPhase {
    Create,
    AllowIpv4,
    CreateFallback,
    ReuseAddress,
    Nonblocking,
    Bind,
    Listen,
    Adopt,
    Ready,
    Failed,
}

/// The opening of a listener, as far as it has come.
#[derive(Clone, Copy, Debug, PartialEq, Eq)]
pub struct ListenerSetup {
    /// The address that was asked for.
    pub requested: SocketAddress,
    /// The address that will be bound.
    pub address: SocketAddress,
    /// The backlog to listen with.
    pub backlog: i32,
    /// The operation that is next.
    pub phase: ListenerPhase,
}

impl ListenerSetup {
    pub open spec fn spec_begin(address: SocketAddress, backlog: i32) -> ListenerSetup {
        ListenerSetup { requested: address, address, backlog, phase: ListenerPhase::Create }
    }

    pub open spec fn spec_action(self) -> SocketAction {
        match self.phase {
            ListenerPhase::Create => SocketAction::Create(self.requested.spec_family()),
            ListenerPhase::AllowIpv4 => SocketAction::AllowIpv4,
            ListenerPhase::CreateFallback => SocketAction::Create(Family::Ipv4),
            ListenerPhase::ReuseAddress => SocketAction::ReuseAddress,
            ListenerPhase::Nonblocking => SocketAction::Nonblocking,
            ListenerPhase::Bind => SocketAction::Bind(self.address),
            ListenerPhase::Listen => SocketAction::Listen(self.backlog),
            ListenerPhase::Adopt => SocketAction::Adopt,
            ListenerPhase::Ready => SocketAction::Ready,
            ListenerPhase::Failed => SocketAction::Abort,
        }
    }

    /// The phase after an operation that succeeded.
    pub open spec fn phase_after_success(self) -> ListenerPhase {
        match self.phase {
            ListenerPhase::Create if self.requested is V6 => ListenerPhase::AllowIpv4,
            ListenerPhase::Create => ListenerPhase::ReuseAddress,
            ListenerPhase::AllowIpv4 => ListenerPhase::ReuseAddress,
            ListenerPhase::CreateFallback => ListenerPhase::ReuseAddress,
            ListenerPhase::ReuseAddress => ListenerPhase::Nonblocking,
            ListenerPhase::Nonblocking => ListenerPhase::Bind,
            ListenerPhase::Bind => ListenerPhase::Listen,
            ListenerPhase::Listen => ListenerPhase::Adopt,
            ListenerPhase::Adopt => ListenerPhase::Ready,
            ListenerPhase::Ready => ListenerPhase::Ready,
            ListenerPhase::Failed => ListenerPhase::Failed,
        }
    }

    /// Whether nothing is left to do, for better or worse.
    pub open spec fn is_over(self) -> bool {
        self.phase is Ready || self.phase is Failed
    }

    /// The opening after the outcome of the operation that was next.
    pub open spec fn spec_step(self, ok: bool) -> ListenerSetup {
        if ok || self.is_over() {
            ListenerSetup { phase: self.phase_after_success(), ..self }
        } else if self.phase is AllowIpv4 {
            ListenerSetup {
                address: self.requested.spec_fallback(),
                phase: ListenerPhase::CreateFallback,
                ..self
            }
        } else {
            ListenerSetup { phase: ListenerPhase::Failed, ..self }
        }
    }

    /// Begins to open a listener at `address`.
    pub fn begin(address: SocketAddress, reading: &SomaxconnReading) -> (r: ListenerSetup)
        ensures
            r == ListenerSetup::spec_begin(address, backlog::listen_backlog(*reading)),
    {
        ListenerSetup {
            requested: address,
            address,
            backlog: get_listen_backlog(reading),
            phase: ListenerPhase::Create,
        }
    }

    /// The operation to perform next.
    pub fn action(&self) -> (r: SocketAction)
        ensures
            r == self.spec_action(),
    {
        match self.phase {
            ListenerPhase::Create => SocketAction::Create(self.requested.family()),
            ListenerPhase::AllowIpv4 => SocketAction::AllowIpv4,
            ListenerPhase::CreateFallback => SocketAction::Create(Family::Ipv4),
            ListenerPhase::ReuseAddress => SocketAction::ReuseAddress,
            ListenerPhase::Nonblocking => SocketAction::Nonblocking,
            ListenerPhase::Bind => SocketAction::Bind(self.address),
            ListenerPhase::Listen => SocketAction::Listen(self.backlog),
            ListenerPhase::Adopt => SocketAction::Adopt,
            ListenerPhase::Ready => SocketAction::Ready,
            ListenerPhase::Failed => SocketAction::Abort,
        }
    }

    /// Takes the outcome of the operation that was next.
    pub fn step(&mut self, ok: bool)
        ensures
            *final(self) == old(self).spec_step(ok),
    {
        let ipv6 = match self.requested {
            SocketAddress::V4 { .. } => false,
            SocketAddress::V6 { .. } => true,
        };
        let failed = ListenerPhase::Failed;
        self.phase = match self.phase {
            ListenerPhase::Create => if !ok {
                failed
            } else if ipv6 {
                ListenerPhase::AllowIpv4
            } else {
                ListenerPhase::ReuseAddress
            },
            ListenerPhase::AllowIpv4 => if ok {
                ListenerPhase::ReuseAddress
            } else {
                self.address = self.requested.fallback();
                ListenerPhase::CreateFallback
            },
            ListenerPhase::CreateFallback => if ok { ListenerPhase::ReuseAddress } else { failed },
            ListenerPhase::ReuseAddress => if ok { ListenerPhase::Nonblocking } else { failed },
            ListenerPhase::Nonblocking => if ok { ListenerPhase::Bind } else { failed },
            ListenerPhase::Bind => if ok { ListenerPhase::Listen } else { failed },
            ListenerPhase::Listen => if ok { ListenerPhase::Adopt } else { failed },
            ListenerPhase::Adopt => if ok { ListenerPhase::Ready } else { failed },
            ListenerPhase::Ready => ListenerPhase::Ready,
            ListenerPhase::Failed => failed,
        };
    }
}

/// The opening after a sequence of outcomes, each of the operation that was next.
pub open spec fn after_outcomes(setup: ListenerSetup, outcomes: Seq<bool>) -> ListenerSetup
    decreases outcomes.len(),
{
    if outcomes.len() == 0 {
        setup
    } else {
        after_outcomes(setup, outcomes.drop_last()).spec_step(outcomes.last())
    }
}

/// The operations that were performed, the last of them with the last outcome.
pub open spec fn performed(setup: ListenerSetup, outcomes: Seq<bool>) -> Seq<SocketAction>
    decreases outcomes.len(),
{
    if outcomes.len() == 0 {
        Seq::empty()
    } else {
        let before = after_outcomes(setup, outcomes.drop_last());
        if before.is_over() {
            performed(setup, outcomes.drop_last())
        } else {
            performed(setup, outcomes.drop_last()).push(before.spec_action())
        }
    }
}

/// The operations that turn a socket into a listener at `address`.
pub open spec fn listen_at(address: SocketAddress, backlog: i32) -> Seq<SocketAction> {
    seq![
        SocketAction::ReuseAddress,
        SocketAction::Nonblocking,
        SocketAction::Bind(address),
        SocketAction::Listen(backlog),
        SocketAction::Adopt,
    ]
}

/// All the operations that open a listener: on an IPv4 address; on an IPv6
/// address where the socket takes IPv4 connections too; and on an IPv6 address
/// where it does not, so that an IPv4 socket takes its place.
pub open spec fn plan(address: SocketAddress, dual_stack: bool, backlog: i32) -> Seq<SocketAction> {
    match address {
        SocketAddress::V4 { .. } => seq![SocketAction::Create(Family::Ipv4)] + listen_at(
            address,
            backlog,
        ),
        SocketAddress::V6 { .. } => if dual_stack {
            seq![SocketAction::Create(Family::Ipv6), SocketAction::AllowIpv4] + listen_at(
                address,
                backlog,
            )
        } else {
            seq![
                SocketAction::Create(Family::Ipv6),
                SocketAction::AllowIpv4,
                SocketAction::Create(Family::Ipv4),
            ] + listen_at(address.spec_fallback(), backlog)
        },
    }
}

/// Whether no operation of the plan failed but the one that may.
pub open spec fn all_in_order(plan: Seq<SocketAction>, outcomes: Seq<bool>) -> bool {
    forall|i: int|
        0 <= i < outcomes.len() && i < plan.len() ==> outcomes[i] || (#[trigger] plan[i]) is AllowIpv4
}

/// The phases that go with the operations of a plan.
spec fn phase_at(address: SocketAddress, dual_stack: bool, i: int) -> ListenerPhase {
    let prefix: Seq<ListenerPhase> = match address {
        SocketAddress::V4 { .. } => seq![ListenerPhase::Create],
        SocketAddress::V6 { .. } => if dual_stack {
            seq![ListenerPhase::Create, ListenerPhase::AllowIpv4]
        } else {
            seq![ListenerPhase::Create, ListenerPhase::AllowIpv4, ListenerPhase::CreateFallback]
        },
    };
    (prefix + seq![
        ListenerPhase::ReuseAddress,
        ListenerPhase::Nonblocking,
        ListenerPhase::Bind,
        ListenerPhase::Listen,
        ListenerPhase::Adopt,
        ListenerPhase::Ready,
    ])[i]
}

/// Where the opening stands after `i` operations of the plan, none of which
/// failed but the one that may.
spec fn setup_at(address: SocketAddress, dual_stack: bool, backlog: i32, i: int) -> ListenerSetup {
    ListenerSetup {
        requested: address,
        address: if address is V6 && !dual_stack && i >= 2 {
            address.spec_fallback()
        } else {
            address
        },
        backlog,
        phase: phase_at(address, dual_stack, i),
    }
}

proof fn lemma_plan_step(address: SocketAddress, dual_stack: bool, backlog: i32, i: int, ok: bool)
    requires
        0 <= i < plan(address, dual_stack, backlog).len(),
        plan(address, dual_stack, backlog)[i] is AllowIpv4 ==> ok == dual_stack,
    ensures
        setup_at(address, dual_stack, backlog, i).spec_action() == plan(
            address,
            dual_stack,
            backlog,
        )[i],
        !setup_at(address, dual_stack, backlog, i).is_over(),
        ok || plan(address, dual_stack, backlog)[i] is AllowIpv4 ==> setup_at(
            address,
            dual_stack,
            backlog,
            i,
        ).spec_step(ok) == setup_at(address, dual_stack, backlog, i + 1),
        !ok && !(plan(address, dual_stack, backlog)[i] is AllowIpv4) ==> setup_at(
            address,
            dual_stack,
            backlog,
            i,
        ).spec_step(ok).phase is Failed,
{
}

/// Whatever the operations come to, they are performed in the order of the plan
/// and none after one that fails; only the failure to take IPv4 connections on
/// an IPv6 socket is made good, by the plan for an IPv4 socket. The listener is
/// ready just when all of the plan was performed and nothing else failed.
pub proof fn law_listener_follows_its_plan(
    address: SocketAddress,
    dual_stack: bool,
    backlog: i32,
    outcomes: Seq<bool>,
)
    requires
        address is V6 && outcomes.len() > 1 ==> dual_stack == outcomes[1],
    ensures
        performed(ListenerSetup::spec_begin(address, backlog), outcomes).is_prefix_of(
            plan(address, dual_stack, backlog),
        ),
        after_outcomes(ListenerSetup::spec_begin(address, backlog), outcomes).phase is Ready
            <==> outcomes.len() >= plan(address, dual_stack, backlog).len() && all_in_order(
            plan(address, dual_stack, backlog),
            outcomes,
        ),
        after_outcomes(ListenerSetup::spec_begin(address, backlog), outcomes).phase is Ready
            ==> performed(ListenerSetup::spec_begin(address, backlog), outcomes) == plan(
            address,
            dual_stack,
            backlog,
        ),
        after_outcomes(ListenerSetup::spec_begin(address, backlog), outcomes).phase is Failed
            <==> !all_in_order(plan(address, dual_stack, backlog), outcomes),
{
    lemma_run(address, dual_stack, backlog, outcomes);
}

/// Whatever the operations come to, the port that is bound is the one that was
/// asked for.
pub proof fn law_port_is_kept(address: SocketAddress, backlog: i32, outcomes: Seq<bool>)
    ensures
        after_outcomes(
            ListenerSetup::spec_begin(address, backlog),
            outcomes,
        ).address.spec_port() == address.spec_port(),
        after_outcomes(ListenerSetup::spec_begin(address, backlog), outcomes).requested == address,
    decreases outcomes.len(),
{
    if outcomes.len() > 0 {
        law_port_is_kept(address, backlog, outcomes.drop_last());
    }
}

proof fn lemma_run(
    address: SocketAddress,
    dual_stack: bool,
    backlog: i32,
    outcomes: Seq<bool>,
)
    requires
        address is V6 && outcomes.len() > 1 ==> dual_stack == outcomes[1],
    ensures
        ({
            let begin = ListenerSetup::spec_begin(address, backlog);
            let p = plan(address, dual_stack, backlog);
            let n = if outcomes.len() < p.len() { outcomes.len() as int } else { p.len() as int };
            let end = after_outcomes(begin, outcomes);
            &&& performed(begin, outcomes).is_prefix_of(p)
            &&& all_in_order(p, outcomes) ==> end == setup_at(address, dual_stack, backlog, n)
                && performed(begin, outcomes) == p.take(n)
            &&& !all_in_order(p, outcomes) ==> end.phase is Failed
        }),
    decreases outcomes.len(),
{
    let begin = ListenerSetup::spec_begin(address, backlog);
    let p = plan(address, dual_stack, backlog);
    if outcomes.len() == 0 {
        assert(performed(begin, outcomes) == p.take(0));
    } else {
        let earlier = outcomes.drop_last();
        let ok = outcomes.last();
        let k = outcomes.len() - 1;
        lemma_run(address, dual_stack, backlog, earlier);
        assert(forall|i: int| 0 <= i < k ==> earlier[i] == outcomes[i]);
        if all_in_order(p, earlier) {
            if k < p.len() {
                assert(p[k] is AllowIpv4 ==> k == 1 && address is V6);
                lemma_plan_step(address, dual_stack, backlog, k, ok);
                assert(p.take(k).push(p[k]) == p.take(k + 1));
                if ok || p[k] is AllowIpv4 {
                    assert(all_in_order(p, outcomes));
                } else {
                    assert(!outcomes[k] && !(p[k] is AllowIpv4));
                }
            } else {
                assert(all_in_order(p, outcomes));
            }
        } else {
            let i = choose|i: int|
                0 <= i < earlier.len() && i < p.len() && !(earlier[i] || (#[trigger] p[i]) is AllowIpv4);
            assert(!outcomes[i] && !(p[i] is AllowIpv4));
        }
    }
}

/// An address has the port and the family that it was made with; in the place of
/// an IPv6 address comes 0.0.0.0 at the same port.
pub proof fn law_addresses_keep_their_parts(
    ipv4: u32,
    ipv6: u128,
    port: u16,
    flowinfo: u32,
    scope_id: u32,
)
    ensures
        (SocketAddress::V4 { ipv4, port }).spec_port() == port,
        (SocketAddress::V6 { ipv6, port, flowinfo, scope_id }).spec_port() == port,
        (SocketAddress::V4 { ipv4, port }).spec_family() is Ipv4,
        (SocketAddress::V6 { ipv6, port, flowinfo, scope_id }).spec_family() is Ipv6,
        (SocketAddress::V6 { ipv6, port, flowinfo, scope_id }).spec_fallback() == (
        SocketAddress::V4 { ipv4: 0, port }),
        (SocketAddress::V4 { ipv4, port }).spec_fallback() == (SocketAddress::V4 { ipv4: 0, port }),
{
}

/// What is bound, on every way to a listener: the address that was asked for, or,
/// where an IPv6 socket does not take IPv4 connections, 0.0.0.0 at its port. It
/// listens with the backlog that was given, and its sockets are of the family of
/// the address that was asked for, or of IPv4.
pub proof fn law_operations_are_given_what_was_asked_for(
    address: SocketAddress,
    backlog: i32,
    outcomes: Seq<bool>,
)
    ensures
        ({
            let next = after_outcomes(
                ListenerSetup::spec_begin(address, backlog),
                outcomes,
            ).spec_action();
            let refused = address is V6 && outcomes.len() > 1 && outcomes[0] && !outcomes[1];
            &&& next matches SocketAction::Bind(bound) ==> if refused {
                bound == (SocketAddress::V4 {
                    ipv4: 0,
                    port: match address {
                        SocketAddress::V4 { port, .. } => port,
                        SocketAddress::V6 { port, .. } => port,
                    },
                })
            } else {
                bound == address
            }
            &&& next matches SocketAction::Listen(length) ==> length == backlog
            &&& next matches SocketAction::Create(family) ==> (family is Ipv6 <==> address is V6
                && outcomes.len() == 0)
            &&& next is AllowIpv4 ==> address is V6 && outcomes.len() == 1 && outcomes[0]
        }),
{
    let dual_stack = outcomes.len() > 1 && outcomes[1];
    let p = plan(address, dual_stack, backlog);
    lemma_run(address, dual_stack, backlog, outcomes);
    if all_in_order(p, outcomes) && outcomes.len() < p.len() {
        if outcomes.len() > 0 {
            assert(p[0] is Create);
        }
        lemma_plan_step(
            address,
            dual_stack,
            backlog,
            outcomes.len() as int,
            dual_stack,
        );
    }
}

/// Where nothing fails, an IPv4 listener takes these operations, and no others.
pub proof fn law_ipv4_listener_operations(ipv4: u32, port: u16, backlog: i32)
    ensures
        ({
            let address = SocketAddress::V4 { ipv4, port };
            let begin = ListenerSetup::spec_begin(address, backlog);
            let outcomes = Seq::new(6, |i: int| true);
            &&& performed(begin, outcomes) == seq![
                SocketAction::Create(Family::Ipv4),
                SocketAction::ReuseAddress,
                SocketAction::Nonblocking,
                SocketAction::Bind(address),
                SocketAction::Listen(backlog),
                SocketAction::Adopt,
            ]
            &&& after_outcomes(begin, outcomes).phase is Ready
        }),
{
    let address = SocketAddress::V4 { ipv4, port };
    let outcomes = Seq::new(6, |i: int| true);
    lemma_run(address, true, backlog, outcomes);
    assert(all_in_order(plan(address, true, backlog), outcomes));
    law_listener_follows_its_plan(address, true, backlog, outcomes);
}

/// Where nothing fails but that an IPv6 socket takes IPv4 connections, which may,
/// an IPv6 listener takes these operations, and no others.
pub proof fn law_ipv6_listener_operations(
    ipv6: u128,
    port: u16,
    flowinfo: u32,
    scope_id: u32,
    backlog: i32,
)
    ensures
        ({
            let address = SocketAddress::V6 { ipv6, port, flowinfo, scope_id };
            let begin = ListenerSetup::spec_begin(address, backlog);
            let taken = Seq::new(7, |i: int| true);
            let refused = Seq::new(8, |i: int| i != 1);
            &&& performed(begin, taken) == seq![
                SocketAction::Create(Family::Ipv6),
                SocketAction::AllowIpv4,
                SocketAction::ReuseAddress,
                SocketAction::Nonblocking,
                SocketAction::Bind(address),
                SocketAction::Listen(backlog),
                SocketAction::Adopt,
            ]
            &&& after_outcomes(begin, taken).phase is Ready
            &&& performed(begin, refused) == seq![
                SocketAction::Create(Family::Ipv6),
                SocketAction::AllowIpv4,
                SocketAction::Create(Family::Ipv4),
                SocketAction::ReuseAddress,
                SocketAction::Nonblocking,
                SocketAction::Bind(SocketAddress::V4 { ipv4: 0, port }),
                SocketAction::Listen(backlog),
                SocketAction::Adopt,
            ]
            &&& after_outcomes(begin, refused).phase is Ready
        }),
{
    let address = SocketAddress::V6 { ipv6, port, flowinfo, scope_id };
    let taken = Seq::new(7, |i: int| true);
    let refused = Seq::new(8, |i: int| i != 1);
    assert(all_in_order(plan(address, true, backlog), taken));
    law_listener_follows_its_plan(address, true, backlog, taken);
    let p = plan(address, false, backlog);
    assert(all_in_order(p, refused)) by {
        assert(p[1] is AllowIpv4);
    }
    law_listener_follows_its_plan(address, false, backlog, refused);
}

/// A failure ends the opening at once and for good, whatever comes after; only that
/// of taking IPv4 connections does not.
pub proof fn law_failures_end_the_opening(setup: ListenerSetup, later: bool)
    requires
        !(setup.phase is Ready),
    ensures
        !(setup.phase is AllowIpv4) ==> setup.spec_step(false).phase is Failed
            && setup.spec_step(false).spec_action() is Abort,
        setup.phase is AllowIpv4 ==> setup.spec_step(false).spec_action() == SocketAction::Create(
            Family::Ipv4,
        ),
        setup.phase is Failed ==> setup.spec_step(later).phase is Failed,
{
}

} // verus!

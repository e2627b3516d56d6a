use rustfs::backlog::SomaxconnReading;
use rustfs::listener::{Family, ListenerPhase, ListenerSetup, SocketAction, SocketAddress};

const V4: SocketAddress = SocketAddress::V4 {
    ipv4: 0x7f00_0001,
    port: 9000,
};
const V6: SocketAddress = SocketAddress::V6 {
    ipv6: 1,
    port: 9001,
    flowinfo: 3,
    scope_id: 4,
};

/// The operations that are performed where only those at the given places fail.
fn run(address: SocketAddress, failing: &[usize]) -> Vec<SocketAction> {
    let mut setup = ListenerSetup::begin(address, &SomaxconnReading::Text("511\n".to_string()));
    let mut performed = Vec::new();
    loop {
        let action = setup.action();
        let place = performed.len();
        performed.push(action);
        if action == SocketAction::Ready || action == SocketAction::Abort {
            return performed;
        }
        setup.step(!failing.contains(&place));
    }
}

#[test]
fn ipv4_listener_is_opened_in_order() {
    assert_eq!(
        run(V4, &[]),
        vec![
            SocketAction::Create(Family::Ipv4),
            SocketAction::ReuseAddress,
            SocketAction::Nonblocking,
            SocketAction::Bind(V4),
            SocketAction::Listen(511),
            SocketAction::Adopt,
            SocketAction::Ready,
        ]
    );
}

#[test]
fn ipv6_listener_takes_ipv4_connections_too() {
    assert_eq!(
        run(V6, &[]),
        vec![
            SocketAction::Create(Family::Ipv6),
            SocketAction::AllowIpv4,
            SocketAction::ReuseAddress,
            SocketAction::Nonblocking,
            SocketAction::Bind(V6),
            SocketAction::Listen(511),
            SocketAction::Adopt,
            SocketAction::Ready,
        ]
    );
}

#[test]
fn ipv6_listener_falls_back_to_ipv4() {
    let fallback = SocketAddress::V4 { ipv4: 0, port: 9001 };
    assert_eq!(
        run(V6, &[1]),
        vec![
            SocketAction::Create(Family::Ipv6),
            SocketAction::AllowIpv4,
            SocketAction::Create(Family::Ipv4),
            SocketAction::ReuseAddress,
            SocketAction::Nonblocking,
            SocketAction::Bind(fallback),
            SocketAction::Listen(511),
            SocketAction::Adopt,
            SocketAction::Ready,
        ]
    );
}

#[test]
fn every_other_failure_ends_the_opening() {
    for (address, length) in [(V4, 6), (V6, 7)] {
        let all = run(address, &[]);
        for place in 0..length {
            if all[place] == SocketAction::AllowIpv4 {
                continue;
            }
            let mut expected = all[..=place].to_vec();
            expected.push(SocketAction::Abort);
            assert_eq!(run(address, &[place]), expected);
        }
    }
    assert_eq!(
        run(V6, &[1, 2]),
        vec![
            SocketAction::Create(Family::Ipv6),
            SocketAction::AllowIpv4,
            SocketAction::Create(Family::Ipv4),
            SocketAction::Abort,
        ]
    );
}

#[test]
fn end_of_the_opening_is_final() {
    let mut setup = ListenerSetup::begin(V4, &SomaxconnReading::Unavailable);
    assert_eq!(setup.backlog, 1024);
    setup.step(false);
    assert_eq!(setup.phase, ListenerPhase::Failed);
    setup.step(true);
    assert_eq!(setup.phase, ListenerPhase::Failed);

    let mut setup = ListenerSetup::begin(V4, &SomaxconnReading::Value(9));
    for _ in 0..6 {
        setup.step(true);
    }
    assert_eq!(setup.phase, ListenerPhase::Ready);
    setup.step(false);
    assert_eq!(setup.phase, ListenerPhase::Ready);
}

#[test]
fn fallback_keeps_the_port() {
    assert_eq!(V6.port(), 9001);
    assert_eq!(V6.family(), Family::Ipv6);
    assert_eq!(V4.port(), 9000);
    assert_eq!(V4.family(), Family::Ipv4);
    assert_eq!(V6.fallback(), SocketAddress::V4 { ipv4: 0, port: 9001 });
    let mut setup = ListenerSetup::begin(V6, &SomaxconnReading::Unavailable);
    setup.step(true);
    setup.step(false);
    assert_eq!(setup.requested, V6);
    assert_eq!(setup.address.port(), 9001);
}

use rustfs::config::Opt;
use rustfs::listener::SocketAddress;
use rustfs::startup::{start_http_server, ServerAddress, Startup, StartupAction, StartupEvent, StartupPhase};

const RESOLVED: SocketAddress = SocketAddress::V4 { ipv4: 0, port: 9000 };

fn opt(tls_path: Option<&str>) -> Opt {
    Opt {
        address: "everywhere:9000".to_string(),
        server_domains: vec!["example.com".to_string()],
        access_key: "a".to_string(),
        secret_key: "s".to_string(),
        console_enable: true,
        tls_path: tls_path.map(|path| path.to_string()),
    }
}

/// What comes of a step that succeeds.
fn success(action: &StartupAction<'_>) -> StartupEvent {
    match action {
        StartupAction::ResolveAddress { .. } => StartupEvent::Resolved(ServerAddress {
            address: RESOLVED,
            text: "0.0.0.0:9000".to_string(),
        }),
        StartupAction::ReadListenerAddress => StartupEvent::Bound {
            ip: "10.0.0.5".to_string(),
        },
        _ => StartupEvent::Succeeded,
    }
}

/// The steps that are taken where only those at the given places fail.
fn run(opt: &Opt, failing: &[usize]) -> Vec<String> {
    let mut startup = start_http_server(opt);
    let mut taken = Vec::new();
    loop {
        let action = startup.action();
        let place = taken.len();
        taken.push(format!("{action:?}"));
        if matches!(action, StartupAction::Run | StartupAction::Abort) {
            return taken;
        }
        startup.step(if failing.contains(&place) {
            StartupEvent::Failed
        } else {
            success(&action)
        });
    }
}

fn all() -> Vec<String> {
    [
        "ResolveAddress { address: \"everywhere:9000\" }",
        "OpenListener { at: V4 { ipv4: 0, port: 9000 } }",
        "ReadListenerAddress",
        "Announce { port: 9000, server_address: \"0.0.0.0:9000\", listener_ip: \"10.0.0.5\" }",
        "ConfigureAuth { access_key: \"a\", secret_key: \"s\" }",
        "BuildAdminRoute { console_enable: true }",
        "ConfigureHost { server_domains: [\"example.com\"] }",
        "StartObserver",
        "SetupTls { tls_path: \"/certs\" }",
        "StartWorker",
        "Run",
    ]
    .iter()
    .map(|step| step.to_string())
    .collect()
}

#[test]
fn server_starts_step_by_step() {
    assert_eq!(run(&opt(Some("/certs")), &[]), all());
}

#[test]
fn missing_tls_path_is_empty() {
    let taken = run(&opt(None), &[]);
    assert_eq!(taken[8], "SetupTls { tls_path: \"\" }");
}

#[test]
fn start_is_given_up_where_a_needed_step_fails() {
    for place in [0, 1, 2, 5, 6, 8] {
        let mut expected = all()[..=place].to_vec();
        expected.push("Abort".to_string());
        assert_eq!(run(&opt(Some("/certs")), &[place]), expected);
    }
}

#[test]
fn start_goes_on_where_another_step_fails() {
    assert_eq!(run(&opt(Some("/certs")), &[3, 4, 7, 9]), all());
}

#[test]
fn listener_opens_at_the_resolved_address() {
    let opt = opt(None);
    let mut startup = start_http_server(&opt);
    let address = SocketAddress::V6 {
        ipv6: 1,
        port: 81,
        flowinfo: 0,
        scope_id: 2,
    };
    startup.step(StartupEvent::Resolved(ServerAddress {
        address,
        text: "[::1%2]:81".to_string(),
    }));
    assert!(matches!(startup.action(), StartupAction::OpenListener { at } if at == address));
    startup.step(StartupEvent::Succeeded);
    startup.step(StartupEvent::Bound { ip: "::1".to_string() });
    match startup.action() {
        StartupAction::Announce {
            port,
            server_address,
            listener_ip,
        } => {
            assert_eq!(port, 81);
            assert_eq!(server_address, "[::1%2]:81");
            assert_eq!(listener_ip, "::1");
        }
        other => panic!("{other:?}"),
    }
}

#[test]
fn event_that_cannot_come_of_a_step_changes_nothing() {
    let opt = opt(None);
    let mut startup = start_http_server(&opt);
    startup.step(StartupEvent::Succeeded);
    startup.step(StartupEvent::Bound { ip: "::1".to_string() });
    assert!(matches!(startup.phase, StartupPhase::ResolveAddress));
    startup.step(success(&startup.action()));
    startup.step(StartupEvent::Bound { ip: "::1".to_string() });
    assert!(matches!(startup.phase, StartupPhase::OpenListener { .. }));
    startup.step(StartupEvent::Succeeded);
    startup.step(StartupEvent::Succeeded);
    assert!(matches!(startup.phase, StartupPhase::ReadListenerAddress { .. }));
}

#[test]
fn end_of_the_start_is_final() {
    let opt = opt(None);
    let mut startup = start_http_server(&opt);
    startup.step(StartupEvent::Failed);
    assert!(matches!(startup.phase, StartupPhase::Failed));
    startup.step(StartupEvent::Succeeded);
    assert!(matches!(startup.phase, StartupPhase::Failed));

    let mut startup = Startup {
        opt: &opt,
        phase: StartupPhase::Running,
    };
    startup.step(StartupEvent::Failed);
    assert!(matches!(startup.phase, StartupPhase::Running));
    assert_eq!(startup.opt.access_key, "a");
}

use rustfs::banner::{announced_ip, api_endpoint, startup_banner, uses_default_credentials};
use rustfs::config::{DefaultCredentials, Opt};
use rustfs::log::{Level, LogLine};

fn opt(access_key: &str, secret_key: &str, console_enable: bool) -> Opt {
    Opt {
        address: ":9000".to_string(),
        server_domains: Vec::new(),
        access_key: access_key.to_string(),
        secret_key: secret_key.to_string(),
        console_enable,
        tls_path: None,
    }
}

fn defaults() -> DefaultCredentials {
    DefaultCredentials {
        access_key: "root".to_string(),
        secret_key: "pass".to_string(),
    }
}

fn pairs(lines: Vec<LogLine>) -> Vec<(Level, String)> {
    lines.into_iter().map(|line| (line.level, line.text)).collect()
}

#[test]
fn banner_without_console() {
    let lines = startup_banner(&opt("alice", "wonder", false), &defaults(), "10.0.0.5", 9000, "[::]:9000");
    assert_eq!(
        pairs(lines),
        vec![
            (
                Level::Info,
                "   API: http://10.0.0.5:9000  http://127.0.0.1:9000".to_string()
            ),
            (Level::Info, "   RootUser: alice".to_string()),
            (Level::Info, "   RootPass: wonder".to_string()),
        ]
    );
}

#[test]
fn banner_with_console_and_default_credentials() {
    let lines = startup_banner(&opt("root", "pass", true), &defaults(), "10.0.0.5", 80, "0.0.0.0:80");
    assert_eq!(
        pairs(lines),
        vec![
            (
                Level::Info,
                "   API: http://10.0.0.5:80  http://127.0.0.1:80".to_string()
            ),
            (
                Level::Info,
                "   WebUI: http://10.0.0.5:80/rustfs/console/index.html http://127.0.0.1:80/rustfs/console/index.html http://0.0.0.0:80/rustfs/console/index.html"
                    .to_string()
            ),
            (Level::Info, "   RootUser: root".to_string()),
            (Level::Info, "   RootPass: pass".to_string()),
            (
                Level::Warn,
                "Detected default credentials 'root:pass', we recommend that you change these values with 'RUSTFS_ACCESS_KEY' and 'RUSTFS_SECRET_KEY' environment variables"
                    .to_string()
            ),
        ]
    );
}

#[test]
fn warning_needs_both_default_keys() {
    for (access_key, secret_key, warned) in [
        ("root", "pass", true),
        ("root", "other", false),
        ("other", "pass", false),
        ("Root", "pass", false),
        ("", "", false),
    ] {
        let opt = opt(access_key, secret_key, true);
        assert_eq!(uses_default_credentials(&opt, &defaults()), warned);
        let lines = startup_banner(&opt, &defaults(), "::1", 1, "[::1]:1");
        assert_eq!(lines.iter().any(|line| line.level == Level::Warn), warned);
    }
}

#[test]
fn endpoints_name_host_and_port() {
    assert_eq!(api_endpoint("192.168.1.7", 65535), "http://192.168.1.7:65535");
    assert_eq!(api_endpoint("::1", 0), "http://::1:0");
}

#[test]
fn listener_address_stands_in_for_the_local_one() {
    assert_eq!(announced_ip(Some("10.1.2.3".to_string()), "0.0.0.0".to_string()), "10.1.2.3");
    assert_eq!(announced_ip(None, "0.0.0.0".to_string()), "0.0.0.0");
}

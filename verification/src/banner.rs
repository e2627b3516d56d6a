//! What the server announces when it starts.
use crate::config::{DefaultCredentials, Opt};
use crate::log::{Level, LogLine};
#[allow(unused_imports)]
use crate::log;
use crate::text::{append_decimal, same_text};
#[allow(unused_imports)]
use crate::text;
use vstd::prelude::*;

verus! {

/// The URL of the API on the host `ip`.
pub open spec fn spec_api_endpoint(ip: Seq<char>, port: u16) -> Seq<char> {
    "http://"@ + ip + ":"@ + text::decimal(port as nat)
}

/// The URL of the web console, below that of a server.
pub open spec fn console_url(server: Seq<char>) -> Seq<char> {
    server + "/rustfs/console/index.html"@
}

/// Whether the root user still has the keys that every installation starts with.
pub open spec fn spec_uses_default_credentials(opt: Opt, defaults: DefaultCredentials) -> bool {
    opt.access_key@ == defaults.access_key@ && opt.secret_key@ == defaults.secret_key@
}

/// The line that names the API's endpoints.
pub open spec fn api_line(ip: Seq<char>, port: u16) -> log::LineView {
    log::LineView {
        level: Level::Info,
        text: "   API: "@ + spec_api_endpoint(ip, port) + "  "@ + spec_api_endpoint(
            "127.0.0.1"@,
            port,
        ),
    }
}

/// The line that names the web console's URLs.
pub open spec fn console_line(ip: Seq<char>, port: u16, server_address: Seq<char>) -> log::LineView {
    log::LineView {
        level: Level::Info,
        text: "   WebUI: "@ + console_url(spec_api_endpoint(ip, port)) + " "@ + console_url(
            spec_api_endpoint("127.0.0.1"@, port),
        ) + " "@ + console_url("http://"@ + server_address),
    }
}

/// The line that names the root user.
pub open spec fn root_user_line(opt: Opt) -> log::LineView {
    log::LineView { level: Level::Info, text: "   RootUser: "@ + opt.access_key@ }
}

/// The line that names the root user's password.
pub open spec fn root_pass_line(opt: Opt) -> log::LineView {
    log::LineView { level: Level::Info, text: "   RootPass: "@ + opt.secret_key@ }
}

/// The warning that the root user has the default keys.
pub open spec fn default_credentials_line(defaults: DefaultCredentials) -> log::LineView {
    log::LineView {
        level: Level::Warn,
        text: "Detected default credentials '"@ + defaults.access_key@ + ":"@ + defaults.secret_key@
            + "', we recommend that you change these values with 'RUSTFS_ACCESS_KEY' and 'RUSTFS_SECRET_KEY' environment variables"@,
    }
}

/// All the lines, in order.
pub open spec fn banner(
    opt: Opt,
    defaults: DefaultCredentials,
    ip: Seq<char>,
    port: u16,
    server_address: Seq<char>,
) -> Seq<log::LineView> {
    let console = if opt.console_enable {
        seq![console_line(ip, port, server_address)]
    } else {
        Seq::empty()
    };
    let warning = if spec_uses_default_credentials(opt, defaults) {
        seq![default_credentials_line(defaults)]
    } else {
        Seq::empty()
    };
    seq![api_line(ip, port)] + console + seq![root_user_line(opt), root_pass_line(opt)] + warning
}

/// The IP address to announce: the one of the machine, or the one that the
/// listener is bound to where that is not known.
pub fn announced_ip(local_ip: Option<String>, listener_ip: String) -> (r: String)
    ensures
        r == (match local_ip {
            Some(ip) => ip,
            None => listener_ip,
        }),
{
    match local_ip {
        Some(ip) => ip,
        None => listener_ip,
    }
}

/// The URL of the API on the host `ip`.
pub fn api_endpoint(ip: &str, port: u16) -> (r: String)
    ensures
        r@ == spec_api_endpoint(ip@, port),
{
    let mut s = "http://".to_owned();
    s.append(ip);
    s.append(":");
    append_decimal(&mut s, port);
    s
}

/// Whether the root user still has the default keys.
pub fn uses_default_credentials(opt: &Opt, defaults: &DefaultCredentials) -> (r: bool)
    ensures
        r == spec_uses_default_credentials(*opt, *defaults),
{
    same_text(defaults.access_key.as_str(), opt.access_key.as_str()) && same_text(
        defaults.secret_key.as_str(),
        opt.secret_key.as_str(),
    )
}

/// The lines that announce a server at `port`, which the operator's address
/// resolved to `server_address`, on the machine with the IP address `ip`.
pub fn startup_banner(
    opt: &Opt,
    defaults: &DefaultCredentials,
    ip: &str,
    port: u16,
    server_address: &str,
) -> (r: Vec<LogLine>)
    ensures
        log::lines_view(r@) == banner(*opt, *defaults, ip@, port, server_address@),
{
    let api = api_endpoint(ip, port);
    let localhost = api_endpoint("127.0.0.1", port);
    let mut lines: Vec<LogLine> = Vec::new();

    let mut text = "   API: ".to_owned();
    text.append(api.as_str());
    text.append("  ");
    text.append(localhost.as_str());
    lines.push(LogLine { level: Level::Info, text });

    if opt.console_enable {
        let mut text = "   WebUI: ".to_owned();
        text.append(api.as_str());
        text.append("/rustfs/console/index.html");
        text.append(" ");
        text.append(localhost.as_str());
        text.append("/rustfs/console/index.html");
        text.append(" ");
        text.append("http://");
        text.append(server_address);
        text.append("/rustfs/console/index.html");
        assert(text@ == console_line(ip@, port, server_address@).text);
        lines.push(LogLine { level: Level::Info, text });
    }
    let mut text = "   RootUser: ".to_owned();
    text.append(opt.access_key.as_str());
    lines.push(LogLine { level: Level::Info, text });

    let mut text = "   RootPass: ".to_owned();
    text.append(opt.secret_key.as_str());
    lines.push(LogLine { level: Level::Info, text });

    if uses_default_credentials(opt, defaults) {
        let mut text = "Detected default credentials '".to_owned();
        text.append(defaults.access_key.as_str());
        text.append(":");
        text.append(defaults.secret_key.as_str());
        text.append(
            "', we recommend that you change these values with 'RUSTFS_ACCESS_KEY' and 'RUSTFS_SECRET_KEY' environment variables",
        );
        lines.push(LogLine { level: Level::Warn, text });
    }
    assert(log::lines_view(lines@) == banner(*opt, *defaults, ip@, port, server_address@));
    lines
}

/// A warning is announced just when both keys are the default ones.
pub proof fn law_default_credentials_are_warned_of(
    opt: Opt,
    defaults: DefaultCredentials,
    ip: Seq<char>,
    port: u16,
    server_address: Seq<char>,
)
    ensures
        (exists|i: int|
            0 <= i < banner(opt, defaults, ip, port, server_address).len() && (#[trigger] banner(
                opt,
                defaults,
                ip,
                port,
                server_address,
            )[i]).level is Warn) <==> spec_uses_default_credentials(opt, defaults),
{
    let lines = banner(opt, defaults, ip, port, server_address);
    if spec_uses_default_credentials(opt, defaults) {
        assert(lines.last().level is Warn);
    }
}

/// The URL of the API names its host and its port: the port can be read back from
/// what follows the host.
pub proof fn law_endpoint_names_host_and_port(ip: Seq<char>, port: u16)
    ensures
        ({
            let head = "http://"@ + ip + ":"@;
            let tail = spec_api_endpoint(ip, port).skip(head.len() as int);
            &&& head.is_prefix_of(spec_api_endpoint(ip, port))
            &&& text::parsed_i32(tail) == Some(port as i32)
            &&& tail.len() > 1 ==> tail[0] != '0'
            &&& tail[0] != '+'
        }),
{
    let head = "http://"@ + ip + ":"@;
    let tail = spec_api_endpoint(ip, port).skip(head.len() as int);
    text::law_decimal_writes_its_number(port as nat);
    text::law_decimal_has_no_leading_zero(port as nat);
    text::law_parse_reads_what_decimal_writes(port as i32);
    assert(spec_api_endpoint(ip, port) == head + text::decimal(port as nat));
    assert(tail == text::decimal(port as nat));
    assert(text::is_digit(tail[0]));
    if tail.len() > 1 {
        assert(port != 0);
    }
}

/// Whether the lines hold one of some text, at the level of information.
pub open spec fn informs(lines: Seq<log::LineView>, text: Seq<char>) -> bool {
    exists|i: int|
        0 <= i < lines.len() && (#[trigger] lines[i]).level is Info && lines[i].text == text
}

/// The endpoints are announced first, those of the machine and of the local host.
pub proof fn law_endpoints_are_announced_first(
    opt: Opt,
    defaults: DefaultCredentials,
    ip: Seq<char>,
    port: u16,
    server_address: Seq<char>,
)
    ensures
        ({
            let lines = banner(opt, defaults, ip, port, server_address);
            &&& lines.len() > 0
            &&& lines[0].level is Info
            &&& lines[0].text == "   API: "@ + ("http://"@ + ip + ":"@ + text::decimal(
                port as nat,
            )) + "  "@ + ("http://"@ + "127.0.0.1"@ + ":"@ + text::decimal(port as nat))
        }),
{
}

/// The web console is announced, second and with its three URLs, just when it is
/// enabled, whatever the keys of the root user are.
pub proof fn law_console_is_announced_where_enabled(
    opt: Opt,
    defaults: DefaultCredentials,
    ip: Seq<char>,
    port: u16,
    server_address: Seq<char>,
)
    ensures
        ({
            let lines = banner(opt, defaults, ip, port, server_address);
            let page = "/rustfs/console/index.html"@;
            let at = text::decimal(port as nat);
            let urls = "   WebUI: "@ + (("http://"@ + ip + ":"@ + at) + page) + " "@ + (("http://"@
                + "127.0.0.1"@ + ":"@ + at) + page) + " "@ + (("http://"@ + server_address) + page);
            &&& opt.console_enable ==> lines[1].level is Info && lines[1].text == urls
            &&& informs(lines, urls) <==> opt.console_enable
        }),
{
    let lines = banner(opt, defaults, ip, port, server_address);
    let urls = console_line(ip, port, server_address).text;
    reveal_strlit("   WebUI: ");
    reveal_strlit("   API: ");
    reveal_strlit("   RootUser: ");
    reveal_strlit("   RootPass: ");
    assert(urls[3] == 'W');
    assert(lines[0].text[3] == 'A');
    let k: int = if opt.console_enable {
        2
    } else {
        1
    };
    assert(lines[k].text == "   RootUser: "@ + opt.access_key@);
    assert(lines[k + 1].text == "   RootPass: "@ + opt.secret_key@);
    assert(lines[k].text[3] == 'R');
    assert(lines[k + 1].text[3] == 'R');
    if opt.console_enable {
        assert(lines[1].text == urls);
    }
}

/// The root user and their password are announced in the two lines behind the
/// URLs, just as they are configured.
pub proof fn law_root_user_is_announced(
    opt: Opt,
    defaults: DefaultCredentials,
    ip: Seq<char>,
    port: u16,
    server_address: Seq<char>,
)
    ensures
        ({
            let lines = banner(opt, defaults, ip, port, server_address);
            let k: int = if opt.console_enable { 2 } else { 1 };
            &&& lines.len() >= k + 2
            &&& lines[k].level is Info && lines[k].text == "   RootUser: "@ + opt.access_key@
            &&& lines[k + 1].level is Info && lines[k + 1].text == "   RootPass: "@
                + opt.secret_key@
        }),
{
}

/// A warning that names the default keys comes last, just where both keys are the
/// default ones, to the letter; there is no other line, and no other warning.
pub proof fn law_warning_comes_last(
    opt: Opt,
    defaults: DefaultCredentials,
    ip: Seq<char>,
    port: u16,
    server_address: Seq<char>,
)
    ensures
        ({
            let lines = banner(opt, defaults, ip, port, server_address);
            let warned = opt.access_key@ == defaults.access_key@ && opt.secret_key@
                == defaults.secret_key@;
            &&& lines.len() == 3 + (if opt.console_enable { 1int } else { 0int }) + (if warned {
                1int
            } else {
                0int
            })
            &&& forall|i: int|
                0 <= i < lines.len() ==> ((#[trigger] lines[i]).level is Warn <==> warned && i
                    == lines.len() - 1)
            &&& warned ==> lines.last().text == "Detected default credentials '"@
                + defaults.access_key@ + ":"@ + defaults.secret_key@
                + "', we recommend that you change these values with 'RUSTFS_ACCESS_KEY' and 'RUSTFS_SECRET_KEY' environment variables"@
        }),
{
}

/// Servers that differ in the keys of their root user alone announce the same
/// endpoints and, where it is enabled, the same console.
pub proof fn law_keys_do_not_change_the_endpoints(
    first: Opt,
    second: Opt,
    defaults: DefaultCredentials,
    ip: Seq<char>,
    port: u16,
    server_address: Seq<char>,
)
    requires
        first.console_enable == second.console_enable,
    ensures
        ({
            let a = banner(first, defaults, ip, port, server_address);
            let b = banner(second, defaults, ip, port, server_address);
            &&& a[0] == b[0]
            &&& first.console_enable ==> a[1] == b[1]
        }),
{
}

} // verus!

//! The messages and paths of the client's background flows: the core
//! update check, profile imports and the audit export path.

use vstd::prelude::*;
use crate::parse::{leading_char, push_skipping_leading};
use crate::ipc::backend::{BackendBuilder, Protocol};
use crate::text::{str_eq};
use crate::parse::trim;
use crate::tui::app::actions::trimmed;
use crate::tui::models::Settings;

verus! {

/// `s` without its leading `v`s (a version tag without its prefix).
pub open spec fn bare_version(s: Seq<char>) -> Seq<char> {
    s.skip(leading_char(s, 'v') as int)
}

/// What the update check reports, from the installed version (if known)
/// and the latest release tag: up to date when the two agree, the latest
/// version when none is installed, else both.
pub open spec fn update_check_text(current: Option<Seq<char>>, latest_tag: Seq<char>) -> Seq<char> {
    let cur = bare_version(match current {
        Some(c) => c,
        None => Seq::empty(),
    });
    let latest = bare_version(latest_tag);
    if cur.len() > 0 && cur == latest {
        "core is up to date (v"@ + latest + ")"@
    } else if cur.len() == 0 {
        "latest core: v"@ + latest + "  (press i to install)"@
    } else {
        "update available: v"@ + cur + " → v"@ + latest + "  (press i to upgrade)"@
    }
}

/// What the update check reports.
pub fn update_check_message(current: Option<&str>, latest_tag: &str) -> (r: String)
    ensures
        r@ == update_check_text(
            match current {
                Some(c) => Some(c@),
                None => None,
            },
            latest_tag@,
        ),
{
    proof {
        reveal_strlit("");
    }
    let mut cur = String::new();
    match current {
        Some(c) => push_skipping_leading(&mut cur, c, 'v'),
        None => push_skipping_leading(&mut cur, "", 'v'),
    }
    let mut latest = String::new();
    push_skipping_leading(&mut latest, latest_tag, 'v');
    let n = cur.unicode_len();
    if n > 0 && str_eq(cur.as_str(), latest.as_str()) {
        let mut r = String::from_str("core is up to date (v");
        r.append(latest.as_str());
        r.append(")");
        r
    } else if n == 0 {
        let mut r = String::from_str("latest core: v");
        r.append(latest.as_str());
        r.append("  (press i to install)");
        r
    } else {
        let mut r = String::from_str("update available: v");
        r.append(cur.as_str());
        r.append(" → v");
        r.append(latest.as_str());
        r.append("  (press i to upgrade)");
        r
    }
}

/// What an import or an update of a profile reports: whether a profile
/// with the same URL was replaced, and the uid.
pub fn profile_import_message(uid: &str, updated: bool) -> (r: String)
    ensures
        r@ == (if updated { "profile updated: "@ } else { "profile imported: "@ }) + uid@,
{
    let mut r = String::from_str(if updated { "profile updated: " } else { "profile imported: " });
    r.append(uid);
    r
}

/// `path` with a leading `~/` standing for `home`, when the home directory
/// is known; any other path unchanged.
pub open spec fn expanded_path(path: Seq<char>, home: Option<Seq<char>>) -> Seq<char> {
    if path.len() >= 2 && path.take(2) == "~/"@ && home is Some {
        home.unwrap() + "/"@ + path.skip(2)
    } else {
        path
    }
}

/// Expands a leading `~/` to the home directory (the value of `HOME`,
/// `None` when unset).
pub fn expand_home(path: &str, home: Option<&str>) -> (r: String)
    ensures
        r@ == expanded_path(
            path@,
            match home {
                Some(h) => Some(h@),
                None => None,
            },
        ),
{
    proof {
        reveal_strlit("~/");
    }
    let n = path.unicode_len();
    let tilde = n >= 2 && path.get_char(0) == '~' && path.get_char(1) == '/';
    proof {
        if n >= 2 {
            if path@.take(2) == "~/"@ {
                assert(path@.take(2)[0] == '~' && path@.take(2)[1] == '/');
            }
            if tilde {
                assert(path@.take(2) =~= "~/"@);
            }
        }
    }
    match home {
        Some(h) => {
            if tilde {
                let mut r = String::new();
                r.append(h);
                r.append("/");
                let mut j: usize = 2;
                while j < n
                    invariant
                        n == path@.len(),
                        2 <= j <= n,
                        r@ == h@ + "/"@ + path@.subrange(2, j as int),
                    decreases n - j,
                {
                    crate::text::push_char(&mut r, path.get_char(j));
                    j = j + 1;
                    assert(r@ =~= h@ + "/"@ + path@.subrange(2, j as int));
                }
                assert(path@.subrange(2, n as int) =~= path@.skip(2));
                r
            } else {
                let mut r = String::new();
                r.append(path);
                r
            }
        },
        None => {
            let mut r = String::new();
            r.append(path);
            r
        },
    }
}

/// The controller socket of a Clash Verge installation.
pub const DEFAULT_UNIX_SOCKET: &'static str = "/tmp/verge/verge-mihomo.sock";

/// The usual external controller port of mihomo.
pub const DEFAULT_TCP_ADDR: &'static str = "127.0.0.1:9090";

/// Where the terminal client reaches the controller: the Clash Verge
/// socket when it exists, else the usual TCP port.
pub fn default_protocol(socket_exists: bool) -> (r: Protocol)
    ensures
        socket_exists ==> (r matches Protocol::UDS(p) && p@ == DEFAULT_UNIX_SOCKET@),
        !socket_exists ==> (r matches Protocol::TCP(a) && a@ == DEFAULT_TCP_ADDR@),
{
    let builder = if socket_exists {
        BackendBuilder::default().set_unix_socket(DEFAULT_UNIX_SOCKET)
    } else {
        BackendBuilder::default().set_tcp_addr(DEFAULT_TCP_ADDR)
    };
    match builder.protocol() {
        Ok(p) => p,
        Err(_) => {
            proof {
                assert(false);
            }
            Protocol::TCP(String::from_str(DEFAULT_TCP_ADDR))
        },
    }
}


/// The TUN part of the options the core's configuration is generated
/// with; a field left `None` keeps the generator's default.
#[derive(Debug, Clone, PartialEq, Eq)]
pub struct TunOptions {
    pub stack: Option<String>,
    pub dns_hijack: Option<Vec<String>>,
    pub dns_mode: Option<String>,
    pub route_exclude_address: Option<Vec<String>>,
    pub exclude_uid: Vec<u32>,
    pub exclude_interface: Vec<String>,
    pub exclude_dst_port: Vec<u16>,
    pub strict_route: bool,
    pub auto_redirect: bool,
}

/// The options the core's configuration is generated with.
#[derive(Debug, Clone, PartialEq, Eq)]
pub struct ConfigGenOptions {
    pub mixed_port: u16,
    pub log_level: String,
    /// The TUN block; none while TUN is off.
    pub tun: Option<TunOptions>,
}

/// `v` is the text `t`, or none where `t` is empty.
pub open spec fn text_unless_empty(v: Option<String>, t: Seq<char>) -> bool {
    if t.len() == 0 {
        v is None
    } else {
        v matches Some(x) && x@ == t
    }
}

/// `v` is the list `l`, or none where `l` is empty.
pub open spec fn list_unless_empty(v: Option<Vec<String>>, l: Seq<String>) -> bool {
    if l.len() == 0 {
        v is None
    } else {
        v matches Some(x) && x@ == l
    }
}

/// The TUN options taken from the helper's settings: stack, DNS hijack,
/// DNS mode and excluded routes where they are set (the generator's
/// default where empty), the exclusions and switches as they are.
pub open spec fn tun_options_from(t: TunOptions, s: Settings) -> bool {
    &&& text_unless_empty(t.stack, s.tun_stack@)
    &&& list_unless_empty(t.dns_hijack, s.dns_hijack@)
    &&& text_unless_empty(t.dns_mode, s.tun_dns_mode@)
    &&& list_unless_empty(t.route_exclude_address, s.route_exclude_address@)
    &&& t.exclude_uid@ == s.exclude_uid@
    &&& t.exclude_interface@ == s.exclude_interface@
    &&& t.exclude_dst_port@ == s.exclude_dst_port@
    &&& t.strict_route == s.strict_route
    &&& t.auto_redirect == s.auto_redirect
}

fn copy_strings(v: &Vec<String>) -> (r: Vec<String>)
    ensures
        r@ == v@,
{
    let r = v.clone();
    assert(r@ =~= v@);
    r
}

fn text_or_default(t: &String) -> (r: Option<String>)
    ensures
        text_unless_empty(r, t@),
{
    if t.unicode_len() == 0 {
        None
    } else {
        Some(t.clone())
    }
}

fn list_or_default(v: &Vec<String>) -> (r: Option<Vec<String>>)
    ensures
        list_unless_empty(r, v@),
{
    if v.len() == 0 {
        None
    } else {
        Some(copy_strings(v))
    }
}

/// The options the core's configuration is generated with, from the
/// helper's settings and its log level: the mixed port, the log level
/// trimmed (`info` where blank), and the TUN block while TUN is on.
pub fn config_options(settings: &Settings, log_level: &str) -> (r: ConfigGenOptions)
    ensures
        r.mixed_port == settings.mixed_port,
        r.log_level@ == (if trim(log_level@).len() == 0 { "info"@ } else { trim(log_level@) }),
        settings.tun_enabled <==> r.tun is Some,
        r.tun matches Some(t) ==> tun_options_from(t, *settings),
{
    let level = trimmed(log_level);
    let log_level = if level.unicode_len() == 0 {
        String::from_str("info")
    } else {
        level
    };
    let tun = if settings.tun_enabled {
        let exclude_uid = settings.exclude_uid.clone();
        let exclude_dst_port = settings.exclude_dst_port.clone();
        assert(exclude_uid@ =~= settings.exclude_uid@);
        assert(exclude_dst_port@ =~= settings.exclude_dst_port@);
        Some(TunOptions {
            stack: text_or_default(&settings.tun_stack),
            dns_hijack: list_or_default(&settings.dns_hijack),
            dns_mode: text_or_default(&settings.tun_dns_mode),
            route_exclude_address: list_or_default(&settings.route_exclude_address),
            exclude_uid,
            exclude_interface: copy_strings(&settings.exclude_interface),
            exclude_dst_port,
            strict_route: settings.strict_route,
            auto_redirect: settings.auto_redirect,
        })
    } else {
        None
    };
    ConfigGenOptions { mixed_port: settings.mixed_port, log_level, tun }
}

} // verus!

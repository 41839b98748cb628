//! The text the renderer shows for pages, proxies and connections.

use vstd::prelude::*;
use crate::format::dash_if_empty;
use crate::format::empty_as_dash;
use crate::format::{
    format_network_bytes, format_rate, network_bytes_text, push_repeat, repeat_char, seq_max, seq_min,
    sparkline_text, sparkline_u64, spark_window,
};
use crate::tui::app::connections::{ConnectionsSort, ConnectionsState};
use crate::parse::{decimal, decimal_string};
use crate::text::{byte_offset, is_boundary, push_char, to_chars, string_of_range, boundary_index, utf8_byte_len, utf8_len};
use crate::tui::app::settings::{GeneralRow, LogsRow, SettingsState, TunRow, logs_label, tun_label};
use crate::tui::models::{HelperConfig, Settings};
use crate::tui::app::page::Page;
use crate::tui::app::proxy::ProxyFocus;
use crate::tui::client::Client;
use crate::tui::app::profiles::{item_at, ProfileBusy, ProfilesState};
use crate::tui::models::ProfileItem;
use crate::format::{chain_text, compact_chain, format_delay, format_unix_time, sparkline_u16, unix_time_text};
use crate::tui::models::{Extra, Rule};
use crate::tui::models::{Connection, DelayHistory, Proxy, ProxyType, RuleBehavior};
use crate::text::{
    ascii_lowercase, lemma_ascii_lowercase_idempotent, lowercase, lowers_as_ascii, str_eq, to_lowercase,
};

verus! {

/// Draws the screens; it keeps no state of its own.
#[derive(Debug, Default)]
pub struct Painter;

impl Painter {
    /// Whether a terminal of this size is below the 80×24 the dashboard
    /// needs, so that only a notice asking for a larger window is drawn.
    pub fn too_small(&self, width: u16, height: u16) -> (r: bool)
        ensures
            r == (width < 80 || height < 24),
    {
        width < 80 || height < 24
    }
}

/// The translation key of a page's title.
pub open spec fn page_key_text(page: Page) -> Seq<char> {
    match page {
        Page::Home => "page.home"@,
        Page::Profiles => "page.profiles"@,
        Page::Proxies => "page.proxies"@,
        Page::Connections => "page.connections"@,
        Page::Logs => "page.logs"@,
        Page::Settings => "page.settings"@,
        Page::Rules => "page.rules"@,
    }
}

/// The translation key of a page's title (`page.home`, ...).
pub fn page_title_key(page: Page) -> (r: &'static str)
    ensures
        r@ == page_key_text(page),
{
    match page {
        Page::Home => "page.home",
        Page::Profiles => "page.profiles",
        Page::Proxies => "page.proxies",
        Page::Connections => "page.connections",
        Page::Logs => "page.logs",
        Page::Settings => "page.settings",
        Page::Rules => "page.rules",
    }
}

/// The most recent delay of a history, if any.
pub fn latest_delay(history: &[DelayHistory]) -> (r: Option<u16>)
    ensures
        r == (if history@.len() == 0 { None } else { Some(history@.last().delay) }),
{
    let n = history.len();
    if n == 0 {
        None
    } else {
        Some(history[n - 1].delay)
    }
}

/// Whether the entries of an extra map have pairwise distinct keys.
pub open spec fn keys_distinct<V>(entries: Seq<(String, V)>) -> bool {
    forall|i: int, j: int| 0 <= i < j < entries.len() ==> entries[i].0@ != entries[j].0@
}

/// The position of the entry keyed `key`, if there is one.
pub open spec fn entry_index<V>(entries: Seq<(String, V)>, key: Seq<char>) -> Option<int> {
    if exists|i: int| 0 <= i < entries.len() && entries[i].0@ == key {
        Some(choose|i: int| 0 <= i < entries.len() && entries[i].0@ == key)
    } else {
        None
    }
}

/// The delay history that a group keeps for its member `node`.
pub fn selected_node_history<'a>(group: &'a Proxy, node: &str) -> (r: Option<&'a [DelayHistory]>)
    requires
        keys_distinct(group.extra@),
    ensures
        match entry_index(group.extra@, node@) {
            None => r.is_none(),
            Some(i) => r.is_some() && r.unwrap()@ == group.extra@[i].1.history@,
        },
{
    let n = group.extra.len();
    let mut i: usize = 0;
    while i < n
        invariant
            n == group.extra@.len(),
            i <= n,
            forall|k: int| 0 <= k < i ==> group.extra@[k].0@ != node@,
            keys_distinct(group.extra@),
        decreases n - i,
    {
        if crate::text::str_eq(group.extra[i].0.as_str(), node) {
            assert(group.extra@[i as int].0@ == node@);
            let ghost w = choose|k: int| 0 <= k < group.extra@.len() && group.extra@[k].0@ == node@;
            assert(w == i as int) by {
                if w != i as int {
                    assert(group.extra@[w].0@ == group.extra@[i as int].0@);
                }
            }
            return Some(group.extra[i].1.history.as_slice());
        }
        i = i + 1;
    }
    None
}

/// The short name of a proxy kind.
pub open spec fn kind_label(t: ProxyType) -> Seq<char> {
    match t {
        ProxyType::Direct => "Direct"@,
        ProxyType::Reject => "Reject"@,
        ProxyType::RejectDrop => "RejectDrop"@,
        ProxyType::Compatible => "Compatible"@,
        ProxyType::Pass => "Pass"@,
        ProxyType::Dns => "DNS"@,
        ProxyType::Shadowsocks => "SS"@,
        ProxyType::ShadowsocksR => "SSR"@,
        ProxyType::Snell => "Snell"@,
        ProxyType::Socks5 => "Socks5"@,
        ProxyType::Http => "HTTP"@,
        ProxyType::Vmess => "Vmess"@,
        ProxyType::Vless => "Vless"@,
        ProxyType::Trojan => "Trojan"@,
        ProxyType::Hysteria => "Hysteria"@,
        ProxyType::Hysteria2 => "Hysteria2"@,
        ProxyType::WireGuard => "WireGuard"@,
        ProxyType::Tuic => "Tuic"@,
        ProxyType::Ssh => "SSH"@,
        ProxyType::Mieru => "Mieru"@,
        ProxyType::AnyTLS => "AnyTLS"@,
        ProxyType::Relay => "Relay"@,
        ProxyType::Selector => "Selector"@,
        ProxyType::Fallback => "Fallback"@,
        ProxyType::URLTest => "URLTest"@,
        ProxyType::LoadBalance => "LoadBalance"@,
    }
}

/// The short name of a group's kind (`SS`, `Selector`, ...).
pub fn proxy_type_name(group: &Proxy) -> (r: &'static str)
    ensures
        r@ == kind_label(group.proxy_type),
{
    match group.proxy_type {
        ProxyType::Direct => "Direct",
        ProxyType::Reject => "Reject",
        ProxyType::RejectDrop => "RejectDrop",
        ProxyType::Compatible => "Compatible",
        ProxyType::Pass => "Pass",
        ProxyType::Dns => "DNS",
        ProxyType::Shadowsocks => "SS",
        ProxyType::ShadowsocksR => "SSR",
        ProxyType::Snell => "Snell",
        ProxyType::Socks5 => "Socks5",
        ProxyType::Http => "HTTP",
        ProxyType::Vmess => "Vmess",
        ProxyType::Vless => "Vless",
        ProxyType::Trojan => "Trojan",
        ProxyType::Hysteria => "Hysteria",
        ProxyType::Hysteria2 => "Hysteria2",
        ProxyType::WireGuard => "WireGuard",
        ProxyType::Tuic => "Tuic",
        ProxyType::Ssh => "SSH",
        ProxyType::Mieru => "Mieru",
        ProxyType::AnyTLS => "AnyTLS",
        ProxyType::Relay => "Relay",
        ProxyType::Selector => "Selector",
        ProxyType::Fallback => "Fallback",
        ProxyType::URLTest => "URLTest",
        ProxyType::LoadBalance => "LoadBalance",
    }
}

/// `parts` joined by `sep`.
pub open spec fn join(parts: Seq<Seq<char>>, sep: Seq<char>) -> Seq<char>
    decreases parts.len(),
{
    if parts.len() == 0 {
        Seq::empty()
    } else if parts.len() == 1 {
        parts[0]
    } else {
        join(parts.drop_last(), sep) + sep + parts.last()
    }
}

/// Appends `name` to the flag list when `on`.
pub open spec fn with_flag(flags: Seq<Seq<char>>, on: bool, name: Seq<char>) -> Seq<Seq<char>> {
    if on { flags.push(name) } else { flags }
}

/// The transport features a proxy has, in a fixed order.
pub open spec fn flag_names(g: Proxy) -> Seq<Seq<char>> {
    let f0 = with_flag(Seq::empty(), g.udp, "udp"@);
    let f1 = with_flag(f0, g.uot, "uot"@);
    let f2 = with_flag(f1, g.xudp, "xudp"@);
    let f3 = with_flag(f2, g.tfo, "tfo"@);
    let f4 = with_flag(f3, g.mptcp, "mptcp"@);
    with_flag(f4, g.smux, "smux"@)
}

/// The transport features joined by ` · `, or `-` for none.
pub open spec fn flags_text(g: Proxy) -> Seq<char> {
    let f = flag_names(g);
    if f.len() == 0 { "-"@ } else { join(f, " · "@) }
}

/// Appends `name` to `flags` (joined by ` · `) when `on`.
fn push_flag(out: &mut String, count: &mut usize, on: bool, name: &str, Ghost(before): Ghost<Seq<Seq<char>>>)
    requires
        old(out)@ == join(before, " · "@),
        *old(count) == before.len(),
        before.len() < 6,
    ensures
        final(out)@ == join(with_flag(before, on, name@), " · "@),
        *final(count) == with_flag(before, on, name@).len(),
{
    if on {
        if *count > 0 {
            out.append(" · ");
        }
        out.append(name);
        *count = *count + 1;
        proof {
            let after = before.push(name@);
            assert(after.drop_last() =~= before);
            if before.len() == 0 {
                assert(out@ =~= join(after, " · "@));
            }
        }
    }
}

/// `udp · tfo`-style list of a proxy's transport features, `-` for none.
pub fn proxy_flags(group: &Proxy) -> (r: String)
    ensures
        r@ == flags_text(*group),
{
    let mut out = String::new();
    let mut count: usize = 0;
    let ghost f0 = with_flag(Seq::empty(), group.udp, "udp"@);
    let ghost f1 = with_flag(f0, group.uot, "uot"@);
    let ghost f2 = with_flag(f1, group.xudp, "xudp"@);
    let ghost f3 = with_flag(f2, group.tfo, "tfo"@);
    let ghost f4 = with_flag(f3, group.mptcp, "mptcp"@);
    assert(out@ =~= join(Seq::empty(), " · "@));
    push_flag(&mut out, &mut count, group.udp, "udp", Ghost(Seq::empty()));
    push_flag(&mut out, &mut count, group.uot, "uot", Ghost(f0));
    push_flag(&mut out, &mut count, group.xudp, "xudp", Ghost(f1));
    push_flag(&mut out, &mut count, group.tfo, "tfo", Ghost(f2));
    push_flag(&mut out, &mut count, group.mptcp, "mptcp", Ghost(f3));
    push_flag(&mut out, &mut count, group.smux, "smux", Ghost(f4));
    if count == 0 {
        let mut dash = String::new();
        dash.append("-");
        dash
    } else {
        out
    }
}

/// `parts` joined by `sep`.
pub fn join_strings(parts: &Vec<String>, sep: &str) -> (r: String)
    ensures
        r@ == join(parts@.map_values(|p: String| p@), sep@),
{
    let ghost ps = parts@.map_values(|p: String| p@);
    let mut r = String::new();
    let mut i: usize = 0;
    while i < parts.len()
        invariant
            i <= parts@.len(),
            ps == parts@.map_values(|p: String| p@),
            r@ == join(ps.take(i as int), sep@),
        decreases parts@.len() - i,
    {
        if i > 0 {
            r.append(sep);
        }
        r.append(parts[i].as_str());
        i = i + 1;
        proof {
            assert(ps.take(i as int).drop_last() =~= ps.take(i - 1));
            if i == 1 {
                assert(r@ =~= join(ps.take(i as int), sep@));
            }
        }
    }
    assert(ps.take(i as int) =~= ps);
    r
}

/// The name a connection is shown by: its host, else the sniffed host,
/// else the remote destination, else the destination address.
pub open spec fn host_text(c: Connection) -> Seq<char> {
    let m = c.metadata;
    if m.host@.len() > 0 {
        m.host@
    } else if m.sniff_host@.len() > 0 {
        m.sniff_host@
    } else if m.remote_destination@.len() > 0 {
        m.remote_destination@
    } else {
        m.destination_ip@
    }
}

/// The name a connection is shown by (see `host_text`).
pub fn connection_host(connection: &Connection) -> (r: String)
    ensures
        r@ == host_text(*connection),
{
    let m = &connection.metadata;
    if m.host.as_str().unicode_len() > 0 {
        m.host.clone()
    } else if m.sniff_host.as_str().unicode_len() > 0 {
        m.sniff_host.clone()
    } else if m.remote_destination.as_str().unicode_len() > 0 {
        m.remote_destination.clone()
    } else {
        m.destination_ip.clone()
    }
}

/// `address:port`, each `-` when empty.
pub open spec fn endpoint_text(ip: Seq<char>, port: Seq<char>) -> Seq<char> {
    dash_if_empty(ip) + ":"@ + dash_if_empty(port)
}

fn endpoint(ip: &str, port: &str) -> (r: String)
    ensures
        r@ == endpoint_text(ip@, port@),
{
    let mut r = String::new();
    r.append(empty_as_dash(ip));
    r.append(":");
    r.append(empty_as_dash(port));
    r
}

/// Where a connection comes from: `address:port`.
pub fn source_endpoint(connection: &Connection) -> (r: String)
    ensures
        r@ == endpoint_text(connection.metadata.source_ip@, connection.metadata.source_port@),
{
    endpoint(connection.metadata.source_ip.as_str(), connection.metadata.source_port.as_str())
}

/// Where a connection goes to: `address:port`.
pub fn destination_endpoint(connection: &Connection) -> (r: String)
    ensures
        r@ == endpoint_text(connection.metadata.destination_ip@, connection.metadata.destination_port@),
{
    endpoint(connection.metadata.destination_ip.as_str(), connection.metadata.destination_port.as_str())
}

/// Geo-IP tags joined by `/`, or `-` when unknown.
pub open spec fn geo_text(geo: Option<Vec<String>>) -> Seq<char> {
    match geo {
        None => "-"@,
        Some(v) => join(v@.map_values(|p: String| p@), "/"@),
    }
}

fn geo_part(geo: &Option<Vec<String>>) -> (r: String)
    ensures
        r@ == geo_text(*geo),
{
    match geo {
        None => {
            let mut r = String::new();
            r.append("-");
            r
        },
        Some(v) => join_strings(v, "/"),
    }
}

/// `source-geo → destination-geo`.
pub fn geo_line(connection: &Connection) -> (r: String)
    ensures
        r@ == geo_text(connection.metadata.source_geo_ip) + " → "@ + geo_text(
            connection.metadata.destination_geo_ip,
        ),
{
    let mut r = geo_part(&connection.metadata.source_geo_ip);
    r.append(" → ");
    let t = geo_part(&connection.metadata.destination_geo_ip);
    r.append(t.as_str());
    r
}

/// `source-ASN → destination-ASN`, each `-` when empty.
pub fn asn_line(connection: &Connection) -> (r: String)
    ensures
        r@ == dash_if_empty(connection.metadata.source_ip_asn@) + " → "@ + dash_if_empty(
            connection.metadata.destination_ip_asn@,
        ),
{
    let mut r = String::new();
    r.append(empty_as_dash(connection.metadata.source_ip_asn.as_str()));
    r.append(" → ");
    r.append(empty_as_dash(connection.metadata.destination_ip_asn.as_str()));
    r
}

/// `inbound-name address:port`, each `-` when empty.
pub fn inbound_line(connection: &Connection) -> (r: String)
    ensures
        r@ == dash_if_empty(connection.metadata.inbound_name@) + " "@ + endpoint_text(
            connection.metadata.inbound_ip@,
            connection.metadata.inbound_port@,
        ),
{
    let mut r = String::new();
    r.append(empty_as_dash(connection.metadata.inbound_name.as_str()));
    r.append(" ");
    let e = endpoint(connection.metadata.inbound_ip.as_str(), connection.metadata.inbound_port.as_str());
    r.append(e.as_str());
    r
}

/// The matched rule, with its payload after ` / ` when there is one.
pub open spec fn rule_text(c: Connection) -> Seq<char> {
    if c.rule_payload@.len() == 0 {
        dash_if_empty(c.rule@)
    } else {
        dash_if_empty(c.rule@) + " / "@ + c.rule_payload@
    }
}

/// The matched rule of a connection (see `rule_text`).
pub fn rule_line(connection: &Connection) -> (r: String)
    ensures
        r@ == rule_text(*connection),
{
    let mut r = String::new();
    r.append(empty_as_dash(connection.rule.as_str()));
    if connection.rule_payload.as_str().unicode_len() > 0 {
        r.append(" / ");
        r.append(connection.rule_payload.as_str());
    }
    r
}

/// The network of a connection (`TCP`, `UDP`).
pub fn network_name(connection: &Connection) -> (r: String)
    ensures
        r@ == connection.metadata.network@,
{
    connection.metadata.network.clone()
}

/// `s` padded with spaces on the right to `w` characters (`{:<w}`).
pub open spec fn pad_right(s: Seq<char>, w: nat) -> Seq<char> {
    if s.len() < w {
        s + repeat_char(' ', (w - s.len()) as nat)
    } else {
        s
    }
}

/// `s` padded with spaces on the right to `w` characters.
pub fn padded(s: &str, w: usize) -> (r: String)
    ensures
        r@ == pad_right(s@, w as nat),
{
    let mut r = String::new();
    r.append(s);
    let n = s.unicode_len();
    if n < w {
        push_repeat(&mut r, ' ', w - n);
    }
    r
}

/// The mark of a switch.
pub open spec fn on_off_text(on: bool) -> Seq<char> {
    if on {
        "● on"@
    } else {
        "○ off"@
    }
}

/// `v` in square brackets, or `default` in brackets where `v` is empty.
pub open spec fn bracketed_or(v: Seq<char>, default: Seq<char>) -> Seq<char> {
    "["@ + (if v.len() == 0 { default } else { v }) + "]"@
}

/// The views of a list of strings.
pub open spec fn views(v: Seq<String>) -> Seq<Seq<char>> {
    v.map_values(|p: String| p@)
}

/// `v` joined with commas, or `default` where that is empty.
pub open spec fn list_or(v: Seq<Seq<char>>, default: Seq<char>) -> Seq<char> {
    if join(v, ","@).len() == 0 {
        default
    } else {
        join(v, ","@)
    }
}

/// The value shown in a row of the TUN tab, from the helper's settings
/// (`None` while they are not loaded).
pub open spec fn tun_value_text(row: TunRow, settings: Option<Settings>) -> Seq<char> {
    match row {
        TunRow::TunEnabled => on_off_text(settings matches Some(s) && s.tun_enabled),
        TunRow::TunStack => bracketed_or(
            match settings {
                Some(s) => s.tun_stack@,
                None => Seq::empty(),
            },
            "system"@,
        ),
        TunRow::TunDnsMode => bracketed_or(
            match settings {
                Some(s) => s.tun_dns_mode@,
                None => Seq::empty(),
            },
            "fake-ip"@,
        ),
        TunRow::DnsHijack => list_or(
            match settings {
                Some(s) => views(s.dns_hijack@),
                None => Seq::empty(),
            },
            "default (any:53,tcp://any:53)"@,
        ),
        TunRow::RouteExclude => list_or(
            match settings {
                Some(s) => views(s.route_exclude_address@),
                None => Seq::empty(),
            },
            "default private nets (10/8,172.16/12,192.168/16,…)"@,
        ),
        TunRow::StrictRoute => on_off_text(settings matches Some(s) && s.strict_route)
            + " risk: crash residuals = full outage"@,
        TunRow::AutoRedirect => on_off_text(settings matches Some(s) && s.auto_redirect)
            + " risk: nft/iptables residuals"@,
        TunRow::RecoverDirect => "run cleanup-tun"@,
    }
}

/// Appends the mark of a switch.
fn push_on_off(r: &mut String, on: bool)
    ensures
        final(r)@ == old(r)@ + on_off_text(on),
{
    if on {
        r.append("● on");
    } else {
        r.append("○ off");
    }
}

/// Appends `v` in brackets, or `default` in brackets where `v` is empty.
fn push_bracketed(r: &mut String, v: &str, default: &str)
    ensures
        final(r)@ == old(r)@ + bracketed_or(v@, default@),
{
    let ghost r0 = r@;
    r.append("[");
    if v.unicode_len() == 0 {
        r.append(default);
    } else {
        r.append(v);
    }
    r.append("]");
    assert(r@ =~= r0 + bracketed_or(v@, default@));
}

/// `v` joined with commas, or `default` where that is empty.
fn joined_or(v: &Vec<String>, default: &str) -> (r: String)
    ensures
        r@ == list_or(views(v@), default@),
{
    let j = join_strings(v, ",");
    if j.unicode_len() == 0 {
        let mut r = String::new();
        r.append(default);
        r
    } else {
        j
    }
}

/// The value shown in a row of the TUN tab.
pub fn tun_row_value(row: TunRow, settings: Option<&Settings>) -> (r: String)
    ensures
        r@ == tun_value_text(row, match settings {
            Some(s) => Some(*s),
            None => None,
        }),
{
    proof {
        reveal_strlit("");
    }
    let mut r = String::new();
    match row {
        TunRow::TunEnabled => {
            push_on_off(&mut r, match settings {
                Some(s) => s.tun_enabled,
                None => false,
            });
        },
        TunRow::TunStack => match settings {
            Some(s) => push_bracketed(&mut r, s.tun_stack.as_str(), "system"),
            None => push_bracketed(&mut r, "", "system"),
        },
        TunRow::TunDnsMode => match settings {
            Some(s) => push_bracketed(&mut r, s.tun_dns_mode.as_str(), "fake-ip"),
            None => push_bracketed(&mut r, "", "fake-ip"),
        },
        TunRow::DnsHijack => {
            let empty: Vec<String> = Vec::new();
            r = joined_or(match settings {
                Some(s) => &s.dns_hijack,
                None => &empty,
            }, "default (any:53,tcp://any:53)");
            assert(views(empty@) =~= Seq::<Seq<char>>::empty());
        },
        TunRow::RouteExclude => {
            let empty: Vec<String> = Vec::new();
            r = joined_or(match settings {
                Some(s) => &s.route_exclude_address,
                None => &empty,
            }, "default private nets (10/8,172.16/12,192.168/16,…)");
            assert(views(empty@) =~= Seq::<Seq<char>>::empty());
        },
        TunRow::StrictRoute => {
            push_on_off(&mut r, match settings {
                Some(s) => s.strict_route,
                None => false,
            });
            r.append(" risk: crash residuals = full outage");
            assert(r@ =~= tun_value_text(row, match settings {
                Some(s) => Some(*s),
                None => None,
            }));
        },
        TunRow::AutoRedirect => {
            push_on_off(&mut r, match settings {
                Some(s) => s.auto_redirect,
                None => false,
            });
            r.append(" risk: nft/iptables residuals");
            assert(r@ =~= tun_value_text(row, match settings {
                Some(s) => Some(*s),
                None => None,
            }));
        },
        TunRow::RecoverDirect => {
            r.append("run cleanup-tun");
        },
    }
    r
}

/// The line shown for a row of the TUN tab: its label padded to 22
/// characters, then its value.
pub fn tun_row_line(row: TunRow, settings: Option<&Settings>) -> (r: String)
    ensures
        r@ == pad_right(tun_label(row), 22) + tun_value_text(row, match settings {
            Some(s) => Some(*s),
            None => None,
        }),
{
    let mut r = padded(row.label(), 22);
    let v = tun_row_value(row, settings);
    r.append(v.as_str());
    r
}

/// The value shown in a row of the Logs tab, from the helper's
/// configuration (`None` while it is not loaded); the log size is shown in
/// whole MiB.
pub open spec fn logs_value_text(row: LogsRow, config: Option<HelperConfig>) -> Seq<char> {
    match config {
        Some(c) => match row {
            LogsRow::CoreLogLevel => c.log_level@,
            LogsRow::AppLogMaxBytes => decimal(c.app_log_max_bytes as nat / 1024 / 1024),
            LogsRow::AppLogKeep => decimal(c.app_log_keep as nat),
            LogsRow::AuditKeep => decimal(c.audit_keep as nat),
            LogsRow::AuditDualWrite => if c.audit_dual_write { "on"@ } else { "off"@ },
        },
        None => match row {
            LogsRow::CoreLogLevel => "info"@,
            LogsRow::AppLogMaxBytes => "1"@,
            LogsRow::AppLogKeep => "5"@,
            LogsRow::AuditKeep => "5"@,
            LogsRow::AuditDualWrite => "on"@,
        },
    }
}

/// The value shown in a row of the Logs tab.
pub fn logs_row_value(row: LogsRow, config: Option<&HelperConfig>) -> (r: String)
    ensures
        r@ == logs_value_text(row, match config {
            Some(c) => Some(*c),
            None => None,
        }),
{
    match config {
        Some(c) => match row {
            LogsRow::CoreLogLevel => {
                let mut r = String::new();
                r.append(c.log_level.as_str());
                r
            },
            LogsRow::AppLogMaxBytes => decimal_string(c.app_log_max_bytes / 1024 / 1024),
            LogsRow::AppLogKeep => decimal_string(c.app_log_keep as u64),
            LogsRow::AuditKeep => decimal_string(c.audit_keep as u64),
            LogsRow::AuditDualWrite => String::from_str(if c.audit_dual_write { "on" } else { "off" }),
        },
        None => String::from_str(match row {
            LogsRow::CoreLogLevel => "info",
            LogsRow::AppLogMaxBytes => "1",
            LogsRow::AppLogKeep => "5",
            LogsRow::AuditKeep => "5",
            LogsRow::AuditDualWrite => "on",
        }),
    }
}

/// The line shown for a row of the Logs tab: its label padded to 20
/// characters, then its value.
pub fn logs_row_line(row: LogsRow, config: Option<&HelperConfig>) -> (r: String)
    ensures
        r@ == pad_right(logs_label(row), 20) + logs_value_text(row, match config {
            Some(c) => Some(*c),
            None => None,
        }),
{
    let mut r = padded(row.label(), 20);
    let v = logs_row_value(row, config);
    r.append(v.as_str());
    r
}

/// The core's checksum as shown: its first 16 bytes and an ellipsis where
/// it is longer, `-` while unknown.
pub open spec fn sha_text(sha: Option<Seq<char>>) -> Seq<char> {
    match sha {
        None => "-"@,
        Some(s) => if utf8_len(s) > 16 {
            s.take(crate::text::char_index_of(s, 16)) + "…"@
        } else {
            s
        },
    }
}

/// The core's checksum as shown on the Core tab.
pub fn core_sha_text(sha: Option<&str>) -> (r: String)
    requires
        sha matches Some(s) ==> (utf8_len(s@) > 16 ==> is_boundary(s@, 16)),
    ensures
        r@ == sha_text(match sha {
            Some(s) => Some(s@),
            None => None,
        }),
{
    match sha {
        None => String::from_str("-"),
        Some(s) => {
            let n = utf8_byte_len(s);
            if n > 16 {
                let v = to_chars(s);
                match boundary_index(&v, 16) {
                    Some(k) => {
                        proof {
                            crate::text::lemma_char_index_of(v@, 16, k as int);
                        }
                        let mut r = string_of_range(&v, 0, k);
                        r.append("…");
                        r
                    },
                    None => {
                        proof {
                            assert(false);
                        }
                        String::new()
                    },
                }
            } else {
                let mut r = String::new();
                r.append(s);
                r
            }
        },
    }
}

/// A byte count as shown, `-` while unknown.
pub open spec fn bytes_or_dash(v: Option<u64>) -> Seq<char> {
    match v {
        Some(b) => network_bytes_text(b as nat),
        None => "-"@,
    }
}

/// A rate as shown, `-` while unknown.
pub open spec fn rate_or_dash(v: Option<u64>) -> Seq<char> {
    match v {
        Some(b) => network_bytes_text(b as nat) + seq!['/', 's'],
        None => "-"@,
    }
}

/// A byte count as shown, `-` while unknown.
pub fn format_bytes_or_dash(v: Option<u64>) -> (r: String)
    ensures
        r@ == bytes_or_dash(v),
{
    match v {
        Some(b) => format_network_bytes(b),
        None => String::from_str("-"),
    }
}

/// A rate as shown, `-` while unknown.
pub fn format_rate_or_dash(v: Option<u64>) -> (r: String)
    ensures
        r@ == rate_or_dash(v),
{
    match v {
        Some(b) => format_rate(b),
        None => String::from_str("-"),
    }
}

/// The figures of the connections summary, as shown.
#[derive(Debug, Clone)]
pub struct ConnectionMetrics {
    /// Number of live connections.
    pub active: String,
    pub upload_rate: String,
    /// The upload total and the sparkline of recent upload rates.
    pub upload_caption: String,
    pub download_rate: String,
    /// The download total and the sparkline of recent download rates.
    pub download_caption: String,
    /// Memory the backend uses.
    pub memory: String,
}

/// The sparkline of `h` can be scaled without overflow.
pub open spec fn sparkline_fits(h: Seq<u64>) -> bool {
    (seq_max(spark_window(h)) - seq_min(spark_window(h))) * 7 <= u64::MAX
}

/// A caption under a rate: `total <bytes>  <sparkline>`.
pub open spec fn traffic_caption(total: Option<u64>, history: Seq<u64>) -> Seq<char> {
    "total "@ + bytes_or_dash(total) + "  "@ + sparkline_text(history)
}

fn caption(total: Option<u64>, history: &Vec<u64>) -> (r: String)
    requires
        sparkline_fits(history@),
    ensures
        r@ == traffic_caption(total, history@),
{
    let mut r = String::from_str("total ");
    let t = format_bytes_or_dash(total);
    r.append(t.as_str());
    r.append("  ");
    let line = sparkline_u64(history.as_slice());
    r.append(line.as_str());
    r
}

/// The connections summary: live connections, upload and download rates
/// with their totals and recent history, and the backend's memory.
pub fn connection_metrics(state: &ConnectionsState) -> (r: ConnectionMetrics)
    requires
        sparkline_fits(state.upload_history@),
        sparkline_fits(state.download_history@),
    ensures
        r.active@ == decimal(state.connections@.len()),
        r.upload_rate@ == rate_or_dash(match state.traffic {
            Some(t) => Some(t.up),
            None => None,
        }),
        r.download_rate@ == rate_or_dash(match state.traffic {
            Some(t) => Some(t.down),
            None => None,
        }),
        r.upload_caption@ == traffic_caption(match state.connections_data {
            Some(d) => Some(d.upload_total),
            None => None,
        }, state.upload_history@),
        r.download_caption@ == traffic_caption(match state.connections_data {
            Some(d) => Some(d.download_total),
            None => None,
        }, state.download_history@),
        r.memory@ == bytes_or_dash(match state.connections_data {
            Some(d) => Some(d.memory as u64),
            None => None,
        }),
{
    let (up_total, down_total, memory) = match &state.connections_data {
        Some(d) => (Some(d.upload_total), Some(d.download_total), Some(d.memory as u64)),
        None => (None, None, None),
    };
    let (up, down) = match &state.traffic {
        Some(t) => (Some(t.up), Some(t.down)),
        None => (None, None),
    };
    ConnectionMetrics {
        active: decimal_string(state.connections.len() as u64),
        upload_rate: format_rate_or_dash(up),
        upload_caption: caption(up_total, &state.upload_history),
        download_rate: format_rate_or_dash(down),
        download_caption: caption(down_total, &state.download_history),
        memory: format_bytes_or_dash(memory),
    }
}

/// The page-specific lines of the help popup: a heading, then the hints
/// for the page.
pub open spec fn page_help_text(page: Page) -> Seq<Seq<char>> {
    match page {
        Page::Home => seq!["Home"@, "Overview of helper, core, current profile and traffic."@, "2 opens Profiles to import/switch a subscription."@],
        Page::Profiles => seq!["Profiles"@, "i imports a subscription URL; Enter switches current."@, "u updates the selected profile; d deletes it (confirm)."@],
        Page::Proxies => seq!["Proxies"@, "Left/right or Tab changes focus between groups and nodes."@, "Enter selects the highlighted node; t tests its delay."@, "T tests every group; d clears the group's fixed selection."@],
        Page::Connections => seq!["Connections"@, "u sorts by upload, d sorts by download, x closes the selected connection."@, "X closes all (confirm); f filters by host/rule/process."@, "The list refreshes automatically every second while visible."@],
        Page::Logs => seq!["Logs"@, "Tab switches between App / Core / Audit columns."@, "f filters by keyword; e cycles core level (all/info/warn/error/debug)."@, "Audit rows show op/actor/result."@],
        Page::Settings => seq!["Settings"@, "Tab switches General / TUN / Core / Service / Backup / About."@, "General: Enter edits port/interval, toggles language/theme."@, "TUN: Enter toggles TUN (hot reload + read-back verify), stack cycles,"@, "     list fields open editors; strict-route/auto-redirect need confirm."@, "     Recover direct runs cleanup-tun (fail-open, idempotent)."@, "Core: s start, S stop, r restart. Backup: b create, d delete."@],
        Page::Rules => seq!["Rules"@, "Enter enables/disables the selected rule (hot apply)."@, "f filters by type/payload/proxy; Tab shows rule providers."@, "In providers view u updates the selected provider."@],
    }
}

/// The page-specific lines of the help popup.
pub fn page_help(page: Page) -> (r: Vec<&'static str>)
    ensures
        r@.map_values(|x: &'static str| x@) == page_help_text(page),
{
    let r: Vec<&'static str> = match page {
        Page::Home => vec!["Home", "Overview of helper, core, current profile and traffic.", "2 opens Profiles to import/switch a subscription."],
        Page::Profiles => vec!["Profiles", "i imports a subscription URL; Enter switches current.", "u updates the selected profile; d deletes it (confirm)."],
        Page::Proxies => vec!["Proxies", "Left/right or Tab changes focus between groups and nodes.", "Enter selects the highlighted node; t tests its delay.", "T tests every group; d clears the group's fixed selection."],
        Page::Connections => vec!["Connections", "u sorts by upload, d sorts by download, x closes the selected connection.", "X closes all (confirm); f filters by host/rule/process.", "The list refreshes automatically every second while visible."],
        Page::Logs => vec!["Logs", "Tab switches between App / Core / Audit columns.", "f filters by keyword; e cycles core level (all/info/warn/error/debug).", "Audit rows show op/actor/result."],
        Page::Settings => vec!["Settings", "Tab switches General / TUN / Core / Service / Backup / About.", "General: Enter edits port/interval, toggles language/theme.", "TUN: Enter toggles TUN (hot reload + read-back verify), stack cycles,", "     list fields open editors; strict-route/auto-redirect need confirm.", "     Recover direct runs cleanup-tun (fail-open, idempotent).", "Core: s start, S stop, r restart. Backup: b create, d delete."],
        Page::Rules => vec!["Rules", "Enter enables/disables the selected rule (hot apply).", "f filters by type/payload/proxy; Tab shows rule providers.", "In providers view u updates the selected provider."],
    };
    assert(r@.map_values(|x: &'static str| x@) =~= page_help_text(page));
    r
}


/// How many members the groups list; a group without a member list counts
/// none.
pub open spec fn member_total(groups: Seq<Proxy>) -> nat
    decreases groups.len(),
{
    if groups.len() == 0 {
        0
    } else {
        member_total(groups.drop_last()) + match groups.last().all {
            Some(v) => v@.len(),
            None => 0,
        }
    }
}

proof fn lemma_member_total_prefix(groups: Seq<Proxy>, k: int)
    requires
        0 <= k <= groups.len(),
    ensures
        member_total(groups.take(k)) <= member_total(groups),
    decreases groups.len(),
{
    if k < groups.len() {
        assert(groups.drop_last().take(k) =~= groups.take(k));
        lemma_member_total_prefix(groups.drop_last(), k);
    } else {
        assert(groups.take(k) =~= groups);
    }
}

/// How many members the groups list (see `member_total`).
pub fn count_members(groups: &Vec<Proxy>) -> (r: usize)
    requires
        member_total(groups@) <= usize::MAX,
    ensures
        r == member_total(groups@),
{
    let mut total: usize = 0;
    let mut i: usize = 0;
    assert(groups@.take(0) =~= Seq::<Proxy>::empty());
    while i < groups.len()
        invariant
            i <= groups.len(),
            total == member_total(groups@.take(i as int)),
            member_total(groups@) <= usize::MAX,
        decreases groups.len() - i,
    {
        proof {
            lemma_member_total_prefix(groups@, i + 1);
            assert(groups@.take(i + 1).drop_last() =~= groups@.take(i as int));
        }
        match &groups[i].all {
            Some(v) => {
                total = total + v.len();
            },
            None => {},
        }
        i = i + 1;
    }
    assert(groups@.take(i as int) =~= groups@);
    total
}

/// The connections part of the status line: live connections and the
/// totals of the last report, or a loading notice before the first one.
pub open spec fn connections_summary_text(c: ConnectionsState) -> Seq<char> {
    match c.connections_data {
        Some(d) => decimal(c.connections@.len()) + " active · up "@ + network_bytes_text(d.upload_total as nat)
            + " · down "@ + network_bytes_text(d.download_total as nat) + " · mem "@
            + network_bytes_text(d.memory as nat),
        None => "loading connections"@,
    }
}

/// The connections part of the status line (see `connections_summary_text`).
pub fn connections_summary(c: &ConnectionsState) -> (r: String)
    ensures
        r@ == connections_summary_text(*c),
{
    match &c.connections_data {
        Some(d) => {
            let mut r = decimal_string(c.connections.len() as u64);
            r.append(" active · up ");
            let up = format_network_bytes(d.upload_total);
            r.append(up.as_str());
            r.append(" · down ");
            let down = format_network_bytes(d.download_total);
            r.append(down.as_str());
            r.append(" · mem ");
            let mem = format_network_bytes(d.memory as u64);
            r.append(mem.as_str());
            r
        },
        None => String::from_str("loading connections"),
    }
}

/// The text of an optional value, `fallback` when there is none.
pub open spec fn or_text(v: Option<String>, fallback: Seq<char>) -> Seq<char> {
    match v {
        Some(s) => s@,
        None => fallback,
    }
}

/// The summary at the right of the status line, for the open page.
pub open spec fn header_summary_text(c: Client) -> Seq<char> {
    match c.current_page {
        Page::Home => "core "@ + or_text(c.home.core_state, "unknown"@) + " · helper "@
            + or_text(c.home.helper_version, "-"@),
        Page::Profiles => "subscription profiles"@,
        Page::Proxies => decimal(c.proxies.groups@.len()) + " groups · "@ + decimal(member_total(c.proxies.groups@))
            + " selectable nodes"@,
        Page::Connections => connections_summary_text(c.connections),
        Page::Logs => "app · core · audit"@,
        Page::Settings => "general · tun · core · service · backup"@,
        Page::Rules => decimal(c.rules.rules@.len()) + " rules · "@ + decimal(c.rules.providers@.len())
            + " providers"@,
    }
}

/// The summary at the right of the status line (see `header_summary_text`).
pub fn header_summary(c: &Client) -> (r: String)
    requires
        c.current_page == Page::Proxies ==> member_total(c.proxies.groups@) <= usize::MAX,
    ensures
        r@ == header_summary_text(*c),
{
    match c.current_page {
        Page::Home => {
            let mut r = String::from_str("core ");
            match &c.home.core_state {
                Some(s) => r.append(s.as_str()),
                None => r.append("unknown"),
            }
            r.append(" · helper ");
            match &c.home.helper_version {
                Some(s) => r.append(s.as_str()),
                None => r.append("-"),
            }
            r
        },
        Page::Profiles => String::from_str("subscription profiles"),
        Page::Proxies => {
            let mut r = decimal_string(c.proxies.groups.len() as u64);
            r.append(" groups · ");
            let n = decimal_string(count_members(&c.proxies.groups) as u64);
            r.append(n.as_str());
            r.append(" selectable nodes");
            r
        },
        Page::Connections => connections_summary(&c.connections),
        Page::Logs => String::from_str("app · core · audit"),
        Page::Settings => String::from_str("general · tun · core · service · backup"),
        Page::Rules => {
            let mut r = decimal_string(c.rules.rules.len() as u64);
            r.append(" rules · ");
            let n = decimal_string(c.rules.providers.len() as u64);
            r.append(n.as_str());
            r.append(" providers");
            r
        },
    }
}

/// The key hints of the footer, for the open page, then help, home and
/// quit.
pub open spec fn footer_text(page: Page, focus: ProxyFocus) -> Seq<(Seq<char>, Seq<char>)> {
    let own: Seq<(Seq<char>, Seq<char>)> = match page {
        Page::Home => seq![("1-7"@, "page"@), ("2"@, "profiles"@)],
        Page::Profiles => seq![
            ("↑↓/jk"@, "move"@),
            ("i/u"@, "import/upd"@),
            ("d/r"@, "del/rename"@),
            ("[/]"@, "reorder"@),
            ("h"@, "history"@),
            ("Enter"@, "switch"@),
        ],
        Page::Proxies => seq![
            ("↑↓/jk"@, "move"@),
            ("Tab/←→"@, if focus == ProxyFocus::Groups { "nodes focus"@ } else { "groups focus"@ }),
            ("Enter"@, "select"@),
            ("t/T"@, "test"@),
            ("d"@, "clear"@),
            ("f/s"@, "filter/sort"@),
        ],
        Page::Connections => seq![
            ("↑↓/jk"@, "move"@),
            ("u/d"@, "sort"@),
            ("x/X"@, "close"@),
            ("f"@, "filter"@),
            ("c"@, "unit"@),
        ],
        Page::Logs => seq![("↑↓/jk"@, "move"@), ("Tab"@, "app/core/audit"@), ("f"@, "filter"@)],
        Page::Settings => seq![("Tab/←→"@, "tab"@), ("↑↓/jk"@, "move"@), ("Enter"@, "edit"@)],
        Page::Rules => seq![("↑↓/jk"@, "move"@), ("Tab"@, "providers"@), ("Enter"@, "toggle"@), ("f"@, "filter"@)],
    };
    own + seq![("?"@, "help"@), ("Esc"@, "home"@), ("q"@, "quit"@)]
}

/// The key hints of the footer (see `footer_text`), as key and label.
pub fn footer_keys(c: &Client) -> (r: Vec<(&'static str, &'static str)>)
    ensures
        r@.map_values(|p: (&'static str, &'static str)| (p.0@, p.1@)) == footer_text(c.current_page, c.proxies.focus),
{
    let mut keys: Vec<(&'static str, &'static str)> = match c.current_page {
        Page::Home => vec![("1-7", "page"), ("2", "profiles")],
        Page::Profiles => vec![
            ("↑↓/jk", "move"),
            ("i/u", "import/upd"),
            ("d/r", "del/rename"),
            ("[/]", "reorder"),
            ("h", "history"),
            ("Enter", "switch"),
        ],
        Page::Proxies => {
            let focus = if c.proxies.focus == ProxyFocus::Groups {
                "nodes focus"
            } else {
                "groups focus"
            };
            vec![
                ("↑↓/jk", "move"),
                ("Tab/←→", focus),
                ("Enter", "select"),
                ("t/T", "test"),
                ("d", "clear"),
                ("f/s", "filter/sort"),
            ]
        },
        Page::Connections => vec![("↑↓/jk", "move"), ("u/d", "sort"), ("x/X", "close"), ("f", "filter"), ("c", "unit")],
        Page::Logs => vec![("↑↓/jk", "move"), ("Tab", "app/core/audit"), ("f", "filter")],
        Page::Settings => vec![("Tab/←→", "tab"), ("↑↓/jk", "move"), ("Enter", "edit")],
        Page::Rules => vec![("↑↓/jk", "move"), ("Tab", "providers"), ("Enter", "toggle"), ("f", "filter")],
    };
    keys.push(("?", "help"));
    keys.push(("Esc", "home"));
    keys.push(("q", "quit"));
    assert(keys@.map_values(|p: (&'static str, &'static str)| (p.0@, p.1@)) =~= footer_text(c.current_page, c.proxies.focus));
    keys
}


/// A colour role of the theme.
#[derive(Debug, Clone, Copy, PartialEq, Eq, Structural)]
pub enum Tone {
    Success,
    Warning,
    Error,
    Info,
    Muted,
}

/// The colour of a delay: good under 180 ms, fair under 500 ms, poor
/// beyond, muted while unknown.
pub open spec fn delay_tone_of(delay: Option<u16>) -> Tone {
    match delay {
        Some(d) => if d < 180 {
            Tone::Success
        } else if d < 500 {
            Tone::Warning
        } else {
            Tone::Error
        },
        None => Tone::Muted,
    }
}

/// The colour of a delay (see `delay_tone_of`).
pub fn delay_tone(delay: Option<u16>) -> (r: Tone)
    ensures
        r == delay_tone_of(delay),
{
    match delay {
        Some(d) if d < 180 => Tone::Success,
        Some(d) if d < 500 => Tone::Warning,
        Some(_) => Tone::Error,
        None => Tone::Muted,
    }
}

/// The colour of a log level, from its lowercase text.
pub open spec fn level_tone(lower: Seq<char>) -> Tone {
    if lower == "error"@ || lower == "err"@ {
        Tone::Error
    } else if lower == "warn"@ || lower == "warning"@ {
        Tone::Warning
    } else if lower == "debug"@ {
        Tone::Muted
    } else {
        Tone::Info
    }
}

/// The colour of a log level as written: the colour of its lowercase.
pub open spec fn log_level_tone_of(level: Seq<char>) -> Tone {
    level_tone(lowercase(level))
}

/// The colour of a log level, whatever its case (see `level_tone`).
pub fn log_level_tone(level: &str) -> (r: Tone)
    ensures
        r == log_level_tone_of(level@),
{
    let lower = to_lowercase(level);
    let l = lower.as_str();
    if str_eq(l, "error") || str_eq(l, "err") {
        Tone::Error
    } else if str_eq(l, "warn") || str_eq(l, "warning") {
        Tone::Warning
    } else if str_eq(l, "debug") {
        Tone::Muted
    } else {
        Tone::Info
    }
}

/// A level's case does not matter: `ERROR`, `Error` and `error` take the
/// same colour, that of the level in lowercase. Stated for text whose
/// lowercase is its ASCII lowercase (all ASCII text, as `to_lowercase`
/// ensures).
pub proof fn lemma_level_tone_ignores_case(level: Seq<char>)
    requires
        lowers_as_ascii(level),
        lowers_as_ascii(ascii_lowercase(level)),
    ensures
        log_level_tone_of(level) == log_level_tone_of(ascii_lowercase(level)),
        log_level_tone_of(level) == level_tone(ascii_lowercase(level)),
{
    lemma_ascii_lowercase_idempotent(level);
}

/// The name of how a rule set is written.
pub open spec fn behavior_text(b: RuleBehavior) -> Seq<char> {
    match b {
        RuleBehavior::Domain => "Domain"@,
        RuleBehavior::IPCIDR => "IP-CIDR"@,
        RuleBehavior::Classical => "Classical"@,
    }
}

/// The name of how a rule set is written (`Domain`, `IP-CIDR`, `Classical`).
pub fn rule_behavior_name(behavior: &RuleBehavior) -> (r: &'static str)
    ensures
        r@ == behavior_text(*behavior),
{
    match behavior {
        RuleBehavior::Domain => "Domain",
        RuleBehavior::IPCIDR => "IP-CIDR",
        RuleBehavior::Classical => "Classical",
    }
}

/// The value shown in a row of the General tab, from the helper's settings
/// (`None` while they are not loaded); the mode row shows none.
pub open spec fn general_value_text(row: GeneralRow, settings: Option<Settings>) -> Option<Seq<char>> {
    match row {
        GeneralRow::MixedPort => Some(match settings {
            Some(s) => decimal(s.mixed_port as nat),
            None => "-"@,
        }),
        GeneralRow::Mode => None,
        GeneralRow::AutoUpdateHours => Some(match settings {
            Some(s) => decimal(s.auto_update_interval_hours as nat),
            None => "-"@,
        }),
        GeneralRow::Language => Some(match settings {
            Some(s) => s.language@,
            None => "en"@,
        }),
        GeneralRow::Theme => Some(match settings {
            Some(s) => s.theme@,
            None => "dark"@,
        }),
        GeneralRow::TestUrl => Some(match settings {
            Some(s) => if s.test_url@.len() == 0 {
                "default"@
            } else {
                s.test_url@
            },
            None => "default"@,
        }),
    }
}

/// The value shown in a row of the General tab (see `general_value_text`).
pub fn general_row_value(row: GeneralRow, settings: Option<&Settings>) -> (r: Option<String>)
    ensures
        match general_value_text(row, match settings {
            Some(s) => Some(*s),
            None => None,
        }) {
            Some(t) => r matches Some(v) && v@ == t,
            None => r is None,
        },
{
    match row {
        GeneralRow::MixedPort => Some(match settings {
            Some(s) => decimal_string(s.mixed_port as u64),
            None => String::from_str("-"),
        }),
        GeneralRow::Mode => None,
        GeneralRow::AutoUpdateHours => Some(match settings {
            Some(s) => decimal_string(s.auto_update_interval_hours),
            None => String::from_str("-"),
        }),
        GeneralRow::Language => Some(match settings {
            Some(s) => s.language.clone(),
            None => String::from_str("en"),
        }),
        GeneralRow::Theme => Some(match settings {
            Some(s) => s.theme.clone(),
            None => String::from_str("dark"),
        }),
        GeneralRow::TestUrl => Some(match settings {
            Some(s) => if s.test_url.unicode_len() == 0 {
                String::from_str("default")
            } else {
                s.test_url.clone()
            },
            None => String::from_str("default"),
        }),
    }
}

/// The figures of the Core tab, as shown.
#[derive(Debug, Clone)]
pub struct CoreSummary {
    /// The core's state, `unknown` until reported.
    pub state: String,
    /// Whether that state is `running` (shown in the success colour).
    pub running: bool,
    pub pid: String,
    pub version: String,
    pub sha: String,
}

/// The figures of the Core tab: state, process id, version and checksum,
/// `-` for what is unknown.
pub fn core_summary(s: &SettingsState) -> (r: CoreSummary)
    requires
        s.core_sha256 matches Some(h) ==> (utf8_len(h@) > 16 ==> is_boundary(h@, 16)),
    ensures
        r.state@ == or_text(s.core_state, "unknown"@),
        r.running == (or_text(s.core_state, "unknown"@) == "running"@),
        r.pid@ == match s.core_pid {
            Some(p) => decimal(p as nat),
            None => "-"@,
        },
        r.version@ == or_text(s.core_version, "-"@),
        r.sha@ == sha_text(match s.core_sha256 {
            Some(h) => Some(h@),
            None => None,
        }),
{
    let state = match &s.core_state {
        Some(t) => t.clone(),
        None => String::from_str("unknown"),
    };
    let running = str_eq(state.as_str(), "running");
    let pid = match s.core_pid {
        Some(p) => decimal_string(p as u64),
        None => String::from_str("-"),
    };
    let version = match &s.core_version {
        Some(v) => v.clone(),
        None => String::from_str("-"),
    };
    let sha = match &s.core_sha256 {
        Some(h) => core_sha_text(Some(h.as_str())),
        None => core_sha_text(None),
    };
    CoreSummary { state, running, pid, version, sha }
}


/// A time as shown: the UTC time, `-` while unknown.
pub open spec fn time_or_dash(t: Option<i64>) -> Seq<char> {
    match t {
        Some(v) => unix_time_text(v as int),
        None => "-"@,
    }
}

/// A time as shown (see `time_or_dash`).
pub fn format_time_or_dash(t: Option<i64>) -> (r: String)
    ensures
        r@ == time_or_dash(t),
{
    match t {
        Some(v) => format_unix_time(v),
        None => String::from_str("-"),
    }
}

/// The profile the home page names: the selected one when it is the
/// current one.
pub open spec fn home_profile_of(p: ProfilesState) -> Option<ProfileItem> {
    match item_at(p.items@, p.list_state.selected) {
        Some(item) => if p.current matches Some(u) && u@ == item.uid@ { Some(item) } else { None },
        None => None,
    }
}

/// The figures of the home page, as shown.
#[derive(Debug, Clone)]
pub struct HomeFigures {
    /// The core's state, `unknown` until reported.
    pub state: String,
    /// Whether that state is `running`.
    pub running: bool,
    /// `On` or `Off`.
    pub tun: String,
    pub pid: String,
    pub version: String,
    /// The current profile's name, `(none)` when the selected profile is
    /// not the current one.
    pub profile: String,
    /// When that profile was last updated.
    pub updated: String,
    pub upload_rate: String,
    pub download_rate: String,
    pub upload_total: String,
    pub download_total: String,
    /// `v` and the helper's version, `unreachable` while unknown.
    pub helper: String,
}

/// The figures of the home page: the core and TUN, the current profile,
/// the traffic and the helper.
pub fn home_figures(c: &Client) -> (r: HomeFigures)
    ensures
        r.state@ == or_text(c.home.core_state, "unknown"@),
        r.running == (or_text(c.home.core_state, "unknown"@) == "running"@),
        r.tun@ == (if c.home.tun_active { "On"@ } else { "Off"@ }),
        r.pid@ == match c.home.core_pid {
            Some(p) => decimal(p as nat),
            None => "-"@,
        },
        r.version@ == or_text(c.home.core_version, "-"@),
        r.profile@ == match home_profile_of(c.profiles) {
            Some(p) => p.name@,
            None => "(none)"@,
        },
        r.updated@ == match home_profile_of(c.profiles) {
            Some(p) => time_or_dash(p.updated_at),
            None => "-"@,
        },
        r.upload_rate@ == rate_or_dash(match c.connections.traffic {
            Some(t) => Some(t.up),
            None => None,
        }),
        r.download_rate@ == rate_or_dash(match c.connections.traffic {
            Some(t) => Some(t.down),
            None => None,
        }),
        r.upload_total@ == bytes_or_dash(match c.connections.connections_data {
            Some(d) => Some(d.upload_total),
            None => None,
        }),
        r.download_total@ == bytes_or_dash(match c.connections.connections_data {
            Some(d) => Some(d.download_total),
            None => None,
        }),
        r.helper@ == match c.home.helper_version {
            Some(v) => "v"@ + v@,
            None => "unreachable"@,
        },
{
    let state = match &c.home.core_state {
        Some(t) => t.clone(),
        None => String::from_str("unknown"),
    };
    let running = str_eq(state.as_str(), "running");
    let tun = if c.home.tun_active {
        String::from_str("On")
    } else {
        String::from_str("Off")
    };
    let pid = match c.home.core_pid {
        Some(p) => decimal_string(p as u64),
        None => String::from_str("-"),
    };
    let version = match &c.home.core_version {
        Some(v) => v.clone(),
        None => String::from_str("-"),
    };
    let (profile, updated) = match c.profiles.selected() {
        Some(p) => {
            let is_current = match &c.profiles.current {
                Some(u) => str_eq(u.as_str(), p.uid.as_str()),
                None => false,
            };
            if is_current {
                (p.name.clone(), format_time_or_dash(p.updated_at))
            } else {
                (String::from_str("(none)"), String::from_str("-"))
            }
        },
        None => (String::from_str("(none)"), String::from_str("-")),
    };
    let (up, down) = match &c.connections.traffic {
        Some(t) => (Some(t.up), Some(t.down)),
        None => (None, None),
    };
    let (up_total, down_total) = match &c.connections.connections_data {
        Some(d) => (Some(d.upload_total), Some(d.download_total)),
        None => (None, None),
    };
    let helper = match &c.home.helper_version {
        Some(v) => {
            let mut h = String::from_str("v");
            h.append(v.as_str());
            h
        },
        None => String::from_str("unreachable"),
    };
    HomeFigures {
        state,
        running,
        tun,
        pid,
        version,
        profile,
        updated,
        upload_rate: format_rate_or_dash(up),
        download_rate: format_rate_or_dash(down),
        upload_total: format_bytes_or_dash(up_total),
        download_total: format_bytes_or_dash(down_total),
        helper,
    }
}

/// The state shown beside a profile in the list: being updated, current,
/// or nothing.
pub open spec fn profile_status_text(p: ProfilesState, uid: Seq<char>) -> Seq<char> {
    if p.busy == ProfileBusy::Updating && (p.busy_uid matches Some(b) && b@ == uid) {
        "updating…"@
    } else if p.current matches Some(c) && c@ == uid {
        "current"@
    } else {
        ""@
    }
}

/// The state shown beside the profile `uid` in the list (see
/// `profile_status_text`).
pub fn profile_status(p: &ProfilesState, uid: &str) -> (r: &'static str)
    ensures
        r@ == profile_status_text(*p, uid@),
{
    let updating = p.busy == ProfileBusy::Updating && match &p.busy_uid {
        Some(b) => str_eq(b.as_str(), uid),
        None => false,
    };
    let current = match &p.current {
        Some(c) => str_eq(c.as_str(), uid),
        None => false,
    };
    if updating {
        "updating…"
    } else if current {
        "current"
    } else {
        ""
    }
}

/// The refresh interval of a profile as shown: `off`, or seconds.
pub open spec fn interval_text(interval: u64) -> Seq<char> {
    if interval == 0 {
        "off"@
    } else {
        decimal(interval as nat) + "s"@
    }
}

/// The refresh interval of a profile as shown (see `interval_text`).
pub fn format_interval(interval: u64) -> (r: String)
    ensures
        r@ == interval_text(interval),
{
    if interval == 0 {
        String::from_str("off")
    } else {
        let mut r = decimal_string(interval);
        r.append("s");
        r
    }
}


/// The delays of a history, widened.
pub open spec fn history_delays(h: Seq<DelayHistory>) -> Seq<u64> {
    h.map_values(|e: DelayHistory| e.delay as u64)
}

/// The sparkline of a delay history.
pub fn sparkline_history(history: &[DelayHistory]) -> (r: String)
    ensures
        r@ == sparkline_text(history_delays(history@)),
{
    let mut values: Vec<u16> = Vec::new();
    let mut i: usize = 0;
    while i < history.len()
        invariant
            i <= history@.len(),
            values@ == history@.take(i as int).map_values(|e: DelayHistory| e.delay),
        decreases history@.len() - i,
    {
        values.push(history[i].delay);
        i = i + 1;
        assert(values@ =~= history@.take(i as int).map_values(|e: DelayHistory| e.delay));
    }
    assert(history@.take(i as int) =~= history@);
    let r = sparkline_u16(values.as_slice());
    assert(values@.map_values(|v: u16| v as u64) =~= history_delays(history@));
    r
}

/// The entry a group keeps for its member `node`, if any.
pub open spec fn member_extra(group: Proxy, node: Seq<char>) -> Option<Extra> {
    match entry_index(group.extra@, node) {
        Some(i) => Some(group.extra@[i].1),
        None => None,
    }
}

/// The position of the entry a group keeps for its member `node`.
fn extra_position(group: &Proxy, node: &str) -> (r: Option<usize>)
    requires
        keys_distinct(group.extra@),
    ensures
        match entry_index(group.extra@, node@) {
            Some(i) => r == Some(i as usize) && 0 <= i < group.extra@.len(),
            None => r is None,
        },
{
    let n = group.extra.len();
    let mut i: usize = 0;
    while i < n
        invariant
            n == group.extra@.len(),
            i <= n,
            forall|k: int| 0 <= k < i ==> group.extra@[k].0@ != node@,
            keys_distinct(group.extra@),
        decreases n - i,
    {
        if str_eq(group.extra[i].0.as_str(), node) {
            assert(group.extra@[i as int].0@ == node@);
            let ghost w = choose|k: int| 0 <= k < group.extra@.len() && group.extra@[k].0@ == node@;
            assert(w == i as int) by {
                if w != i as int {
                    assert(group.extra@[w].0@ == group.extra@[i as int].0@);
                }
            }
            return Some(i);
        }
        i = i + 1;
    }
    None
}

/// The most recent delay of a history.
pub open spec fn newest_delay(h: Seq<DelayHistory>) -> Option<u16> {
    if h.len() == 0 {
        None
    } else {
        Some(h.last().delay)
    }
}

/// A member row of the node list, as shown.
#[derive(Debug, Clone)]
pub struct NodeRow {
    /// `◉` on the group's chosen member, `●` on a live one, `○` otherwise.
    pub dot: &'static str,
    /// `ACTIVE`, `ready` or `down`, in the same way.
    pub state: &'static str,
    /// Whether the member is the group's chosen one.
    pub current: bool,
    /// The member's last measured delay.
    pub delay: Option<u16>,
    /// That delay as shown, `-` while unknown.
    pub delay_text: String,
    /// The sparkline of the member's delays.
    pub spark: String,
}

/// Whether a member is alive: as its own entry says, else as its group.
pub open spec fn member_alive(group: Proxy, node: Seq<char>) -> bool {
    match member_extra(group, node) {
        Some(e) => e.alive,
        None => group.alive,
    }
}

/// The member row of `node` in `group`: its mark and state, its last delay
/// and the sparkline of its delays (from the entry the group keeps for it).
pub fn node_row(group: &Proxy, node: &str) -> (r: NodeRow)
    requires
        keys_distinct(group.extra@),
    ensures
        r.current == (group.now matches Some(n) && n@ == node@),
        (r.dot@, r.state@) == (if r.current {
            ("◉"@, "ACTIVE"@)
        } else if member_alive(*group, node@) {
            ("●"@, "ready"@)
        } else {
            ("○"@, "down"@)
        }),
        r.delay == match member_extra(*group, node@) {
            Some(e) => newest_delay(e.history@),
            None => None,
        },
        r.delay_text@ == match r.delay {
            Some(d) => decimal(d as nat) + " ms"@,
            None => "-"@,
        },
        r.spark@ == match member_extra(*group, node@) {
            Some(e) => sparkline_text(history_delays(e.history@)),
            None => ""@,
        },
{
    let current = match &group.now {
        Some(n) => str_eq(n.as_str(), node),
        None => false,
    };
    let pos = extra_position(group, node);
    let (alive, delay, spark) = match pos {
        Some(i) => {
            let e = &group.extra[i].1;
            assert(group.extra@.len() == group.extra.len());
            assert(member_extra(*group, node@) == Some(*e));
            (e.alive, latest_delay(e.history.as_slice()), sparkline_history(e.history.as_slice()))
        },
        None => {
            proof {
                reveal_strlit("");
            }
            (group.alive, None, String::new())
        },
    };
    let (dot, state) = if current {
        ("◉", "ACTIVE")
    } else if alive {
        ("●", "ready")
    } else {
        ("○", "down")
    };
    let delay_text = match delay {
        Some(d) => format_delay(d),
        None => String::from_str("-"),
    };
    proof {
        assert(seq![' ', 'm', 's'] =~= " ms"@) by {
            reveal_strlit(" ms");
        }
    }
    NodeRow { dot, state, current, delay, delay_text, spark }
}

/// A group row of the group list, as shown.
#[derive(Debug, Clone)]
pub struct GroupRow {
    /// `●` on a live group, `○` otherwise.
    pub dot: &'static str,
    /// Success for a live group, error otherwise.
    pub tone: Tone,
    /// The short name of the group's kind.
    pub kind: &'static str,
    /// How many members it lists.
    pub nodes: usize,
    /// Its chosen member, `-` while none.
    pub now: String,
}

/// The group row of `group`: liveness, kind, member count and choice.
pub fn group_row(group: &Proxy) -> (r: GroupRow)
    ensures
        r.dot@ == (if group.alive { "●"@ } else { "○"@ }),
        r.tone == (if group.alive { Tone::Success } else { Tone::Error }),
        r.kind@ == kind_label(group.proxy_type),
        r.nodes == match group.all {
            Some(v) => v@.len(),
            None => 0,
        },
        r.now@ == or_text(group.now, "-"@),
{
    GroupRow {
        dot: if group.alive { "●" } else { "○" },
        tone: if group.alive { Tone::Success } else { Tone::Error },
        kind: proxy_type_name(group),
        nodes: match &group.all {
            Some(v) => v.len(),
            None => 0,
        },
        now: match &group.now {
            Some(n) => n.clone(),
            None => String::from_str("-"),
        },
    }
}

/// The hit count and state of a rule row, and the state's colour: hits
/// and `enabled`/`disabled` from the rule's counters, `-` without them.
pub open spec fn rule_row_text(rule: Rule) -> (Seq<char>, Seq<char>, Tone) {
    match rule.extra {
        Some(e) => (decimal(e.hit_count as nat), if e.disabled { "disabled"@ } else { "enabled"@ }, if e.disabled {
            Tone::Muted
        } else {
            Tone::Success
        }),
        None => ("-"@, "-"@, Tone::Muted),
    }
}

/// The hit count, state and state colour of a rule row (see
/// `rule_row_text`).
pub fn rule_row(rule: &Rule) -> (r: (String, &'static str, Tone))
    ensures
        (r.0@, r.1@, r.2) == rule_row_text(*rule),
{
    match &rule.extra {
        Some(e) => (
            decimal_string(e.hit_count),
            if e.disabled { "disabled" } else { "enabled" },
            if e.disabled { Tone::Muted } else { Tone::Success },
        ),
        None => (String::from_str("-"), "-", Tone::Muted),
    }
}

/// The colour of an audit record's result: success for `ok`, muted while
/// `pending`, error otherwise.
pub open spec fn audit_result_tone_of(result: Seq<char>) -> Tone {
    if result == "ok"@ {
        Tone::Success
    } else if result == "pending"@ {
        Tone::Muted
    } else {
        Tone::Error
    }
}

/// The colour of an audit record's result (see `audit_result_tone_of`).
pub fn audit_result_tone(result: &str) -> (r: Tone)
    ensures
        r == audit_result_tone_of(result@),
{
    if str_eq(result, "ok") {
        Tone::Success
    } else if str_eq(result, "pending") {
        Tone::Muted
    } else {
        Tone::Error
    }
}


/// An optional text as shown, `-` while there is none.
fn text_or_dash(v: &Option<String>) -> (t: String)
    ensures
        t@ == or_text(*v, "-"@),
{
    match v {
        Some(x) => x.clone(),
        None => String::from_str("-"),
    }
}

/// The detail panel of the selected group, as shown.
#[derive(Debug, Clone)]
pub struct ProxyDetail {
    /// The group's chosen member, `-` while none.
    pub current: String,
    /// The selected member, `-` while none.
    pub selected: String,
    /// The short name of the group's kind.
    pub kind: &'static str,
    /// How many members the group lists.
    pub nodes: usize,
    /// The selected member's last delay, `-` while unknown.
    pub delay: String,
    /// The sparkline of the selected member's delays.
    pub history: String,
    /// The group's transport features.
    pub flags: String,
    pub fixed: String,
    pub provider: String,
    pub test_url: String,
    /// The interface, `-` when empty.
    pub interface: String,
}

/// The delay history the group keeps for the member shown as selected.
pub open spec fn shown_history(group: Proxy, shown: Seq<char>) -> Option<Seq<DelayHistory>> {
    match member_extra(group, shown) {
        Some(e) => Some(e.history@),
        None => None,
    }
}

/// The detail panel of `group` with `selected` the selected member (if
/// any): its choice, the selected member and its delays (from the entry
/// the group keeps under the name shown), kind, member count, features,
/// pin, provider, test URL and interface.
pub fn proxy_detail(group: &Proxy, selected: Option<&str>) -> (r: ProxyDetail)
    requires
        keys_distinct(group.extra@),
    ensures
        r.current@ == or_text(group.now, "-"@),
        r.selected@ == match selected {
            Some(n) => n@,
            None => "-"@,
        },
        r.kind@ == kind_label(group.proxy_type),
        r.nodes == match group.all {
            Some(v) => v@.len(),
            None => 0,
        },
        r.delay@ == match shown_history(*group, r.selected@) {
            Some(h) => match newest_delay(h) {
                Some(d) => decimal(d as nat) + " ms"@,
                None => "-"@,
            },
            None => "-"@,
        },
        r.history@ == match shown_history(*group, r.selected@) {
            Some(h) => sparkline_text(h.map_values(|e: DelayHistory| e.delay as u64)),
            None => ""@,
        },
        r.flags@ == flags_text(*group),
        r.fixed@ == or_text(group.fixed, "-"@),
        r.provider@ == or_text(group.provider_name, "-"@),
        r.test_url@ == or_text(group.test_url, "-"@),
        r.interface@ == dash_if_empty(group.interface@),
{
    let shown: &str = match selected {
        Some(n) => n,
        None => "-",
    };
    let (delay, history) = match selected_node_history(group, shown) {
        Some(h) => {
            let d = match latest_delay(h) {
                Some(d) => format_delay(d),
                None => String::from_str("-"),
            };
            (d, sparkline_history(h))
        },
        None => {
            proof {
                reveal_strlit("");
            }
            (String::from_str("-"), String::new())
        },
    };
    proof {
        assert(seq![' ', 'm', 's'] =~= " ms"@) by {
            reveal_strlit(" ms");
        }
    }
    let mut interface = String::new();
    interface.append(empty_as_dash(group.interface.as_str()));
    ProxyDetail {
        current: text_or_dash(&group.now),
        selected: String::from_str(shown),
        kind: proxy_type_name(group),
        nodes: match &group.all {
            Some(v) => v.len(),
            None => 0,
        },
        delay,
        history,
        flags: proxy_flags(group),
        fixed: text_or_dash(&group.fixed),
        provider: text_or_dash(&group.provider_name),
        test_url: text_or_dash(&group.test_url),
        interface,
    }
}


/// The headers of the transfer columns: the sorted one carries an arrow.
pub open spec fn transfer_headers_text(sort: ConnectionsSort) -> (Seq<char>, Seq<char>) {
    match sort {
        ConnectionsSort::Upload => ("Upload ↓"@, "Download"@),
        ConnectionsSort::Download => ("Upload"@, "Download ↓"@),
    }
}

/// The headers of the transfer columns (see `transfer_headers_text`).
pub fn transfer_headers(sort: ConnectionsSort) -> (r: (&'static str, &'static str))
    ensures
        (r.0@, r.1@) == transfer_headers_text(sort),
{
    match sort {
        ConnectionsSort::Upload => ("Upload ↓", "Download"),
        ConnectionsSort::Download => ("Upload", "Download ↓"),
    }
}

/// A row of the connections table, as shown.
#[derive(Debug, Clone)]
pub struct ConnectionRow {
    pub host: String,
    /// The process, `-` when unknown.
    pub process: String,
    pub network: String,
    pub upload: String,
    pub download: String,
    /// The rule, `-` when none.
    pub rule: String,
    /// `first → last` of the proxy chain.
    pub chain: String,
}

/// The row of a connection: host, process, network, transfers, rule and
/// chain.
pub fn connection_row(c: &Connection) -> (r: ConnectionRow)
    ensures
        r.host@ == host_text(*c),
        r.process@ == dash_if_empty(c.metadata.process@),
        r.network@ == c.metadata.network@,
        r.upload@ == network_bytes_text(c.upload as nat),
        r.download@ == network_bytes_text(c.download as nat),
        r.rule@ == dash_if_empty(c.rule@),
        r.chain@ == chain_text(c.chains@.map_values(|x: String| x@)),
{
    let mut process = String::new();
    process.append(empty_as_dash(c.metadata.process.as_str()));
    let mut rule = String::new();
    rule.append(empty_as_dash(c.rule.as_str()));
    ConnectionRow {
        host: connection_host(c),
        process,
        network: network_name(c),
        upload: format_network_bytes(c.upload),
        download: format_network_bytes(c.download),
        rule,
        chain: compact_chain(c.chains.as_slice()),
    }
}

/// The detail panel of a connection, as shown.
#[derive(Debug, Clone)]
pub struct ConnectionDetail {
    pub host: String,
    pub id: String,
    pub kind: String,
    pub network: String,
    pub source: String,
    pub target: String,
    pub geo: String,
    pub asn: String,
    pub inbound: String,
    pub rule: String,
    /// Every proxy of the chain, joined with arrows.
    pub chains: String,
    /// When it started, `-` when unknown.
    pub started: String,
}

/// The detail panel of a connection: host, id, type, network, both
/// endpoints with their locations and networks, inbound, rule, the whole
/// chain and the start time.
pub fn connection_detail(c: &Connection) -> (r: ConnectionDetail)
    ensures
        r.host@ == host_text(*c),
        r.id@ == c.id@,
        r.kind@ == c.metadata.conn_type@,
        r.network@ == c.metadata.network@,
        r.source@ == endpoint_text(c.metadata.source_ip@, c.metadata.source_port@),
        r.target@ == endpoint_text(c.metadata.destination_ip@, c.metadata.destination_port@),
        r.geo@ == geo_text(c.metadata.source_geo_ip) + " → "@ + geo_text(c.metadata.destination_geo_ip),
        r.asn@ == dash_if_empty(c.metadata.source_ip_asn@) + " → "@ + dash_if_empty(c.metadata.destination_ip_asn@),
        r.inbound@ == dash_if_empty(c.metadata.inbound_name@) + " "@ + endpoint_text(
            c.metadata.inbound_ip@,
            c.metadata.inbound_port@,
        ),
        r.rule@ == rule_text(*c),
        r.chains@ == join(c.chains@.map_values(|x: String| x@), " → "@),
        r.started@ == dash_if_empty(c.start@),
{
    let mut started = String::new();
    started.append(empty_as_dash(c.start.as_str()));
    ConnectionDetail {
        host: connection_host(c),
        id: c.id.clone(),
        kind: c.metadata.conn_type.clone(),
        network: network_name(c),
        source: source_endpoint(c),
        target: destination_endpoint(c),
        geo: geo_line(c),
        asn: asn_line(c),
        inbound: inbound_line(c),
        rule: rule_line(c),
        chains: join_strings(&c.chains, " → "),
        started,
    }
}

} // verus!

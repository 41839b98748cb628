//! What the settings keys and the submitted inputs ask for: the decision
//! part of the page handlers, as values the runtime carries out (a dialog
//! to open, a settings change to send, a filter to set).

use vstd::prelude::*;
use crate::parse::{parse_radix, parse_unsigned, trim, trim_range};
use crate::text::{string_of_range, to_chars, utf8_byte_len, utf8_len};
use crate::tui::app::i18n::Lang;
use crate::tui::app::modal::{ConfirmPurpose, ConfirmState, InputPurpose, InputState};
use crate::tui::app::settings::{GeneralRow, TunRow};
use crate::tui::canvas::join;
use crate::tui::models::Settings;

verus! {

/// `s` cut at every `sep`, starting with the pending piece `cur`.
pub open spec fn split_from(s: Seq<char>, cur: Seq<char>, sep: char) -> Seq<Seq<char>>
    decreases s.len(),
{
    if s.len() == 0 {
        seq![cur]
    } else if s[0] == sep {
        seq![cur] + split_from(s.drop_first(), Seq::empty(), sep)
    } else {
        split_from(s.drop_first(), cur.push(s[0]), sep)
    }
}

/// The pieces of `s` between the separators `sep` (`str::split`).
pub open spec fn split_on(s: Seq<char>, sep: char) -> Seq<Seq<char>> {
    split_from(s, Seq::empty(), sep)
}

/// The pieces, trimmed, without the empty ones.
pub open spec fn kept_items(ps: Seq<Seq<char>>) -> Seq<Seq<char>>
    decreases ps.len(),
{
    if ps.len() == 0 {
        Seq::empty()
    } else {
        let k = kept_items(ps.drop_last());
        if trim(ps.last()).len() > 0 { k.push(trim(ps.last())) } else { k }
    }
}

/// The entries of a comma-separated list: each piece trimmed, the empty
/// ones dropped.
pub open spec fn csv_items(text: Seq<char>) -> Seq<Seq<char>> {
    kept_items(split_on(text, ','))
}

/// The entries that read as decimal numbers of at most `max`, in order.
pub open spec fn parsed_items(items: Seq<Seq<char>>, max: nat) -> Seq<nat>
    decreases items.len(),
{
    if items.len() == 0 {
        Seq::empty()
    } else {
        let k = parsed_items(items.drop_last(), max);
        match parse_unsigned(items.last(), 10, max) {
            Some(v) => k.push(v),
            None => k,
        }
    }
}

proof fn lemma_split_step(v: Seq<char>, i: int, cur: Seq<char>, sep: char)
    requires
        0 <= i < v.len(),
    ensures
        split_from(v.skip(i), cur, sep) == if v[i] == sep {
            seq![cur] + split_from(v.skip(i + 1), Seq::empty(), sep)
        } else {
            split_from(v.skip(i + 1), cur.push(v[i]), sep)
        },
{
    assert(v.skip(i)[0] == v[i]);
    assert(v.skip(i).drop_first() =~= v.skip(i + 1));
}

/// The entries of a comma-separated list (see `csv_items`).
pub fn split_csv(text: &str) -> (r: Vec<String>)
    ensures
        r@.map_values(|s: String| s@) == csv_items(text@),
{
    let v = to_chars(text);
    let n = v.len();
    let mut out: Vec<String> = Vec::new();
    let ghost mut done: Seq<Seq<char>> = Seq::empty();
    let mut start: usize = 0;
    let mut i: usize = 0;
    assert(v@.skip(0) =~= v@);
    assert(v@.subrange(0, 0) =~= Seq::<char>::empty());
    while i < n
        invariant
            n == v@.len(),
            start <= i <= n,
            split_on(v@, ',') == done + split_from(v@.skip(i as int), v@.subrange(start as int, i as int), ','),
            out@.map_values(|s: String| s@) == kept_items(done),
        decreases n - i,
    {
        proof {
            lemma_split_step(v@, i as int, v@.subrange(start as int, i as int), ',');
        }
        if v[i] == ',' {
            let (a, b) = trim_range(&v, start, i);
            let ghost piece = v@.subrange(start as int, i as int);
            if a < b {
                out.push(string_of_range(&v, a, b));
            }
            proof {
                let d2 = done.push(piece);
                assert(d2.drop_last() =~= done);
                assert(out@.map_values(|s: String| s@) =~= kept_items(d2));
                assert(d2 + split_from(v@.skip(i + 1), Seq::empty(), ',') =~= done + (seq![piece]
                    + split_from(v@.skip(i + 1), Seq::empty(), ',')));
                done = d2;
                assert(v@.subrange(i + 1, i + 1) =~= Seq::<char>::empty());
            }
            start = i + 1;
        } else {
            proof {
                assert(v@.subrange(start as int, i as int).push(v@[i as int]) =~= v@.subrange(start as int, i + 1));
            }
        }
        i = i + 1;
    }
    let (a, b) = trim_range(&v, start, n);
    let ghost piece = v@.subrange(start as int, n as int);
    if a < b {
        out.push(string_of_range(&v, a, b));
    }
    proof {
        assert(v@.skip(n as int) =~= Seq::<char>::empty());
        let d2 = done.push(piece);
        assert(d2.drop_last() =~= done);
        assert(split_on(v@, ',') =~= d2);
        assert(out@.map_values(|s: String| s@) =~= kept_items(d2));
    }
    out
}

fn parse_items(items: &Vec<String>, max: u64) -> (r: Vec<u64>)
    ensures
        r@.map_values(|x: u64| x as nat) == parsed_items(items@.map_values(|s: String| s@), max as nat),
        forall|k: int| 0 <= k < r@.len() ==> #[trigger] r@[k] <= max,
{
    let ghost its = items@.map_values(|s: String| s@);
    let mut out: Vec<u64> = Vec::new();
    let mut i: usize = 0;
    assert(its.take(0) =~= Seq::<Seq<char>>::empty());
    while i < items.len()
        invariant
            i <= items@.len(),
            its == items@.map_values(|s: String| s@),
            out@.map_values(|x: u64| x as nat) == parsed_items(its.take(i as int), max as nat),
            forall|k: int| 0 <= k < out@.len() ==> #[trigger] out@[k] <= max,
        decreases items@.len() - i,
    {
        let cs = to_chars(items[i].as_str());
        let p = parse_radix(&cs, 0, cs.len(), 10, max);
        proof {
            assert(cs@.subrange(0, cs@.len() as int) =~= cs@);
            assert(its.take(i + 1).drop_last() =~= its.take(i as int));
            assert(its.take(i + 1).last() == items@[i as int]@);
        }
        match p {
            Some(x) => {
                out.push(x);
                assert(out@.map_values(|x: u64| x as nat) =~= parsed_items(its.take(i + 1), max as nat));
            },
            None => {},
        }
        i = i + 1;
    }
    assert(its.take(i as int) =~= its);
    out
}

/// The entries of a comma-separated list that read as `u32` numbers.
pub fn split_csv_u32(text: &str) -> (r: Vec<u32>)
    ensures
        r@.map_values(|x: u32| x as nat) == parsed_items(csv_items(text@), u32::MAX as nat),
{
    let items = split_csv(text);
    let wide = parse_items(&items, 0xffff_ffff);
    let mut out: Vec<u32> = Vec::new();
    let mut i: usize = 0;
    while i < wide.len()
        invariant
            i <= wide@.len(),
            wide@.map_values(|x: u64| x as nat) == parsed_items(csv_items(text@), u32::MAX as nat),
            forall|k: int| 0 <= k < wide@.len() ==> #[trigger] wide@[k] <= u32::MAX,
            out@.len() == i,
            forall|k: int| 0 <= k < i ==> #[trigger] out@[k] == wide@[k],
        decreases wide@.len() - i,
    {
        out.push(wide[i] as u32);
        i = i + 1;
    }
    assert(out@.map_values(|x: u32| x as nat) =~= wide@.map_values(|x: u64| x as nat));
    out
}

/// The entries of a comma-separated list that read as `u16` numbers.
pub fn split_csv_u16(text: &str) -> (r: Vec<u16>)
    ensures
        r@.map_values(|x: u16| x as nat) == parsed_items(csv_items(text@), u16::MAX as nat),
{
    let items = split_csv(text);
    let wide = parse_items(&items, 0xffff);
    let mut out: Vec<u16> = Vec::new();
    let mut i: usize = 0;
    while i < wide.len()
        invariant
            i <= wide@.len(),
            wide@.map_values(|x: u64| x as nat) == parsed_items(csv_items(text@), u16::MAX as nat),
            forall|k: int| 0 <= k < wide@.len() ==> #[trigger] wide@[k] <= u16::MAX,
            out@.len() == i,
            forall|k: int| 0 <= k < i ==> #[trigger] out@[k] == wide@[k],
        decreases wide@.len() - i,
    {
        out.push(wide[i] as u16);
        i = i + 1;
    }
    assert(out@.map_values(|x: u16| x as nat) =~= wide@.map_values(|x: u64| x as nat));
    out
}

/// A field of the helper's settings.
#[derive(Debug, Clone, Copy, PartialEq, Eq, Structural)]
pub enum PatchField {
    Language,
    Theme,
    TestUrl,
    MixedPort,
    AutoUpdateHours,
    TunStack,
    TunDnsMode,
    DnsHijack,
    RouteExclude,
    ExcludeUid,
    ExcludeInterface,
    ExcludeDstPort,
    StrictRoute,
    AutoRedirect,
}

/// A change of the helper's settings: each field that is set is written,
/// the others are left as they are.
#[derive(Debug, Clone, PartialEq, Eq)]
pub struct SettingsPatch {
    pub language: Option<String>,
    pub theme: Option<String>,
    pub test_url: Option<String>,
    pub mixed_port: Option<u16>,
    pub auto_update_interval_hours: Option<u64>,
    pub tun_stack: Option<String>,
    pub tun_dns_mode: Option<String>,
    pub dns_hijack: Option<Vec<String>>,
    pub route_exclude_address: Option<Vec<String>>,
    pub exclude_uid: Option<Vec<u32>>,
    pub exclude_interface: Option<Vec<String>>,
    pub exclude_dst_port: Option<Vec<u16>>,
    pub strict_route: Option<bool>,
    pub auto_redirect: Option<bool>,
}

/// Every field but `keep` is unset.
pub open spec fn unset_except(p: SettingsPatch, keep: PatchField) -> bool {
    &&& (keep != PatchField::Language ==> p.language is None)
    &&& (keep != PatchField::Theme ==> p.theme is None)
    &&& (keep != PatchField::TestUrl ==> p.test_url is None)
    &&& (keep != PatchField::MixedPort ==> p.mixed_port is None)
    &&& (keep != PatchField::AutoUpdateHours ==> p.auto_update_interval_hours is None)
    &&& (keep != PatchField::TunStack ==> p.tun_stack is None)
    &&& (keep != PatchField::TunDnsMode ==> p.tun_dns_mode is None)
    &&& (keep != PatchField::DnsHijack ==> p.dns_hijack is None)
    &&& (keep != PatchField::RouteExclude ==> p.route_exclude_address is None)
    &&& (keep != PatchField::ExcludeUid ==> p.exclude_uid is None)
    &&& (keep != PatchField::ExcludeInterface ==> p.exclude_interface is None)
    &&& (keep != PatchField::ExcludeDstPort ==> p.exclude_dst_port is None)
    &&& (keep != PatchField::StrictRoute ==> p.strict_route is None)
    &&& (keep != PatchField::AutoRedirect ==> p.auto_redirect is None)
}

/// Whether no field is set.
pub open spec fn patch_is_empty(p: SettingsPatch) -> bool {
    unset_except(p, PatchField::Language) && p.language is None
}

impl Default for SettingsPatch {
    fn default() -> (r: Self)
        ensures
            patch_is_empty(r),
    {
        SettingsPatch {
            language: None,
            theme: None,
            test_url: None,
            mixed_port: None,
            auto_update_interval_hours: None,
            tun_stack: None,
            tun_dns_mode: None,
            dns_hijack: None,
            route_exclude_address: None,
            exclude_uid: None,
            exclude_interface: None,
            exclude_dst_port: None,
            strict_route: None,
            auto_redirect: None,
        }
    }
}

/// `text` as an owned string.
fn owned(text: &str) -> (r: String)
    ensures
        r@ == text@,
{
    let mut r = String::new();
    r.append(text);
    r
}

/// A patch that writes one text field.
fn text_patch(field: PatchField, value: String) -> (r: SettingsPatch)
    requires
        field == PatchField::Language || field == PatchField::Theme || field == PatchField::TestUrl
            || field == PatchField::TunStack || field == PatchField::TunDnsMode,
    ensures
        unset_except(r, field),
        field == PatchField::Language ==> r.language == Some(value),
        field == PatchField::Theme ==> r.theme == Some(value),
        field == PatchField::TestUrl ==> r.test_url == Some(value),
        field == PatchField::TunStack ==> r.tun_stack == Some(value),
        field == PatchField::TunDnsMode ==> r.tun_dns_mode == Some(value),
{
    let mut p = SettingsPatch::default();
    match field {
        PatchField::Language => p.language = Some(value),
        PatchField::Theme => p.theme = Some(value),
        PatchField::TestUrl => p.test_url = Some(value),
        PatchField::TunStack => p.tun_stack = Some(value),
        _ => p.tun_dns_mode = Some(value),
    }
    p
}

/// What a settings key asks for.
#[derive(Debug)]
pub enum SettingsAction {
    /// Ask before doing it.
    Confirm(ConfirmState),
    /// Open an input dialog.
    Input(InputState),
    /// Send a settings change.
    Apply(SettingsPatch),
    /// Nothing.
    Nothing,
}

/// The stack TUN switches to: system, gvisor, mixed, and round (an unknown
/// stack goes to system).
pub open spec fn next_stack(cur: Seq<char>) -> Seq<char> {
    if cur == "system"@ { "gvisor"@ } else if cur == "gvisor"@ { "mixed"@ } else { "system"@ }
}

/// The DNS mode TUN switches to: redir-host goes to fake-ip, anything else
/// to redir-host.
pub open spec fn next_dns_mode(cur: Seq<char>) -> Seq<char> {
    if cur == "redir-host"@ { "fake-ip"@ } else { "redir-host"@ }
}

/// The text of a setting, or `fallback` without settings.
pub open spec fn setting_or(settings: Option<Settings>, f: spec_fn(Settings) -> Seq<char>, fallback: Seq<char>) -> Seq<char> {
    match settings {
        Some(s) => f(s),
        None => fallback,
    }
}

/// An input dialog pre-filled with `text`, its cursor at the end.
fn prefilled(title: &str, purpose: InputPurpose, text: Option<String>) -> (r: InputState)
    ensures
        r.title@ == title@,
        r.purpose == purpose,
        r.buffer@ == match text {
            Some(t) => t@,
            None => Seq::empty(),
        },
        r.cursor == utf8_len(r.buffer@),
{
    let mut input = InputState::new(title, purpose);
    if let Some(t) = text {
        input.cursor = utf8_byte_len(t.as_str());
        input.buffer = t;
    }
    input
}

/// The list joined by commas, when there are settings.
fn joined_list(settings: &Option<Settings>, field: PatchField) -> (r: Option<String>)
    requires
        field == PatchField::DnsHijack || field == PatchField::RouteExclude,
    ensures
        match settings {
            Some(s) => r is Some && r.unwrap()@ == join(
                (if field == PatchField::DnsHijack { s.dns_hijack@ } else { s.route_exclude_address@ }).map_values(
                    |x: String| x@,
                ),
                ","@,
            ),
            None => r is None,
        },
{
    match settings {
        Some(s) => {
            let list = if field == PatchField::DnsHijack { &s.dns_hijack } else { &s.route_exclude_address };
            Some(crate::tui::canvas::join_strings(list, ","))
        },
        None => None,
    }
}

/// The confirmation dialog of a switch.
fn confirm(title: &str, message: &str, purpose: ConfirmPurpose) -> (r: SettingsAction)
    ensures
        r matches SettingsAction::Confirm(c) && c.title@ == title@ && c.message@ == message@ && c.purpose == purpose,
{
    SettingsAction::Confirm(ConfirmState::new(title, message, purpose))
}

/// What `e` on a row of the TUN tab asks for. Switching TUN on or off and
/// switching strict-route or auto-redirect on are confirmed first;
/// switching those two off, the stack and the DNS mode are sent at once
/// (stack and mode cycle); the lists open an input dialog holding the
/// current list; the cleanup is confirmed.
pub fn tun_row_action(settings: &Option<Settings>, row: TunRow) -> (r: SettingsAction)
    ensures
        row == TunRow::TunEnabled ==> {
            let enable = !(match settings { Some(s) => s.tun_enabled, None => false });
            r matches SettingsAction::Confirm(c) && c.purpose == (ConfirmPurpose::SetTun { enable })
                && c.title@ == (if enable { "Enable TUN"@ } else { "Disable TUN"@ }) && c.message@ == (if enable {
                "Enable TUN? Global transparent proxy + DNS hijack (fake-ip)."@
            } else {
                "Disable TUN? Restores direct connection."@
            })
        },
        row == TunRow::TunStack ==> (r matches SettingsAction::Apply(p) && unset_except(p, PatchField::TunStack)
            && (p.tun_stack matches Some(v) && v@ == next_stack(
            match settings { Some(s) => s.tun_stack@, None => "gvisor"@ },
        ))),
        row == TunRow::TunDnsMode ==> (r matches SettingsAction::Apply(p) && unset_except(p, PatchField::TunDnsMode)
            && (p.tun_dns_mode matches Some(v) && v@ == next_dns_mode(
            match settings { Some(s) => s.tun_dns_mode@, None => "fake-ip"@ },
        ))),
        row == TunRow::DnsHijack ==> (r matches SettingsAction::Input(i) && i.purpose == InputPurpose::EditDnsHijack
            && i.title@ == "dns-hijack (comma separated; empty = default any:53,tcp://any:53)"@ && i.buffer@ == match settings {
            Some(s) => join(s.dns_hijack@.map_values(|x: String| x@), ","@),
            None => Seq::empty(),
        } && i.cursor == utf8_len(i.buffer@)),
        row == TunRow::RouteExclude ==> (r matches SettingsAction::Input(i) && i.purpose == InputPurpose::EditRouteExclude
            && i.title@ == "route-exclude CIDRs (comma separated; empty = private nets)"@ && i.buffer@ == match settings {
            Some(s) => join(s.route_exclude_address@.map_values(|x: String| x@), ","@),
            None => Seq::empty(),
        } && i.cursor == utf8_len(i.buffer@)),
        row == TunRow::StrictRoute ==> if !(match settings { Some(s) => s.strict_route, None => false }) {
            r matches SettingsAction::Confirm(c) && c.purpose == ConfirmPurpose::EnableStrictRoute && c.title@
                == "Enable strict-route"@ && c.message@
                == "strict-route installs unreachable rules; crash residuals = full network outage. Enable?"@
        } else {
            r matches SettingsAction::Apply(p) && unset_except(p, PatchField::StrictRoute) && p.strict_route == Some(
                false,
            )
        },
        row == TunRow::AutoRedirect ==> if !(match settings { Some(s) => s.auto_redirect, None => false }) {
            r matches SettingsAction::Confirm(c) && c.purpose == ConfirmPurpose::EnableAutoRedirect && c.title@
                == "Enable auto-redirect"@ && c.message@
                == "auto-redirect installs nftables/iptables rules; residuals persist after crash. Enable?"@
        } else {
            r matches SettingsAction::Apply(p) && unset_except(p, PatchField::AutoRedirect) && p.auto_redirect
                == Some(false)
        },
        row == TunRow::RecoverDirect ==> (r matches SettingsAction::Confirm(c) && c.purpose == ConfirmPurpose::CleanupTun
            && c.title@ == "Recover direct"@ && c.message@
            == "Run cleanup-tun? Removes ip rules / routes / clard0 residuals (idempotent)."@),
{
    match row {
        TunRow::TunEnabled => {
            let on = match settings {
                Some(s) => s.tun_enabled,
                None => false,
            };
            let enable = !on;
            if enable {
                confirm(
                    "Enable TUN",
                    "Enable TUN? Global transparent proxy + DNS hijack (fake-ip).",
                    ConfirmPurpose::SetTun { enable },
                )
            } else {
                confirm("Disable TUN", "Disable TUN? Restores direct connection.", ConfirmPurpose::SetTun { enable })
            }
        },
        TunRow::TunStack => {
            let cur: String = match settings {
                Some(s) => s.tun_stack.clone(),
                None => owned("gvisor"),
            };
            let next = if crate::text::str_eq(cur.as_str(), "system") {
                "gvisor"
            } else if crate::text::str_eq(cur.as_str(), "gvisor") {
                "mixed"
            } else {
                "system"
            };
            SettingsAction::Apply(text_patch(PatchField::TunStack, owned(next)))
        },
        TunRow::TunDnsMode => {
            let cur: String = match settings {
                Some(s) => s.tun_dns_mode.clone(),
                None => owned("fake-ip"),
            };
            let next = if crate::text::str_eq(cur.as_str(), "redir-host") { "fake-ip" } else { "redir-host" };
            SettingsAction::Apply(text_patch(PatchField::TunDnsMode, owned(next)))
        },
        TunRow::DnsHijack => SettingsAction::Input(
            prefilled(
                "dns-hijack (comma separated; empty = default any:53,tcp://any:53)",
                InputPurpose::EditDnsHijack,
                joined_list(settings, PatchField::DnsHijack),
            ),
        ),
        TunRow::RouteExclude => SettingsAction::Input(
            prefilled(
                "route-exclude CIDRs (comma separated; empty = private nets)",
                InputPurpose::EditRouteExclude,
                joined_list(settings, PatchField::RouteExclude),
            ),
        ),
        TunRow::StrictRoute => {
            let on = match settings {
                Some(s) => s.strict_route,
                None => false,
            };
            if !on {
                confirm(
                    "Enable strict-route",
                    "strict-route installs unreachable rules; crash residuals = full network outage. Enable?",
                    ConfirmPurpose::EnableStrictRoute,
                )
            } else {
                let mut p = SettingsPatch::default();
                p.strict_route = Some(false);
                SettingsAction::Apply(p)
            }
        },
        TunRow::AutoRedirect => {
            let on = match settings {
                Some(s) => s.auto_redirect,
                None => false,
            };
            if !on {
                confirm(
                    "Enable auto-redirect",
                    "auto-redirect installs nftables/iptables rules; residuals persist after crash. Enable?",
                    ConfirmPurpose::EnableAutoRedirect,
                )
            } else {
                let mut p = SettingsPatch::default();
                p.auto_redirect = Some(false);
                SettingsAction::Apply(p)
            }
        },
        TunRow::RecoverDirect => confirm(
            "Recover direct",
            "Run cleanup-tun? Removes ip rules / routes / clard0 residuals (idempotent).",
            ConfirmPurpose::CleanupTun,
        ),
    }
}

/// What `e` on a row of the General tab asks for: the port and the
/// update interval open an empty input dialog, the test URL one holding
/// the current URL; the language (switched from the shown one) and the
/// theme (dark and light, dark without settings) are sent at once; the
/// mode row has no edit.
pub fn general_row_action(settings: &Option<Settings>, row: GeneralRow, lang: Lang) -> (r: SettingsAction)
    ensures
        row == GeneralRow::MixedPort ==> (r matches SettingsAction::Input(i) && i.purpose == InputPurpose::EditMixedPort
            && i.title@ == "Mixed port (1-65535)"@ && i.buffer@.len() == 0 && i.cursor == 0),
        row == GeneralRow::AutoUpdateHours ==> (r matches SettingsAction::Input(i) && i.purpose
            == InputPurpose::EditAutoUpdateHours && i.title@ == "Auto update interval (hours, 0=off)"@
            && i.buffer@.len() == 0 && i.cursor == 0),
        row == GeneralRow::Language ==> (r matches SettingsAction::Apply(p) && unset_except(p, PatchField::Language)
            && (p.language matches Some(v) && v@ == (match lang { Lang::En => "zh"@, Lang::Zh => "en"@ }))),
        row == GeneralRow::Theme ==> (r matches SettingsAction::Apply(p) && unset_except(p, PatchField::Theme)
            && (p.theme matches Some(v) && v@ == (if (match settings { Some(s) => s.theme@, None => "dark"@ }) == "dark"@ {
            "light"@
        } else {
            "dark"@
        }))),
        row == GeneralRow::TestUrl ==> (r matches SettingsAction::Input(i) && i.purpose == InputPurpose::EditTestUrl
            && i.title@ == "Test URL (empty = default)"@ && i.buffer@ == (match settings {
            Some(s) => s.test_url@,
            None => Seq::empty(),
        }) && i.cursor == utf8_len(i.buffer@)),
        row == GeneralRow::Mode ==> r is Nothing,
{
    match row {
        GeneralRow::MixedPort => SettingsAction::Input(InputState::new("Mixed port (1-65535)", InputPurpose::EditMixedPort)),
        GeneralRow::AutoUpdateHours => SettingsAction::Input(
            InputState::new("Auto update interval (hours, 0=off)", InputPurpose::EditAutoUpdateHours),
        ),
        GeneralRow::Language => {
            let next = lang.toggle();
            SettingsAction::Apply(text_patch(PatchField::Language, owned(next.as_str())))
        },
        GeneralRow::Theme => {
            let cur: String = match settings {
                Some(s) => s.theme.clone(),
                None => owned("dark"),
            };
            let next = if crate::text::str_eq(cur.as_str(), "dark") { "light" } else { "dark" };
            SettingsAction::Apply(text_patch(PatchField::Theme, owned(next)))
        },
        GeneralRow::TestUrl => {
            let url: Option<String> = match settings {
                Some(s) => Some(s.test_url.clone()),
                None => None,
            };
            SettingsAction::Input(prefilled("Test URL (empty = default)", InputPurpose::EditTestUrl, url))
        },
        GeneralRow::Mode => SettingsAction::Nothing,
    }
}

/// What a submitted input dialog asks for.
#[derive(Debug)]
pub enum InputAction {
    /// Import the subscription at this URL.
    ImportProfile(String),
    SetConnectionsFilter(String),
    SetRulesFilter(String),
    RenameProfile { uid: String, name: String },
    SetProxiesFilter(String),
    SetLogsFilter(String),
    /// Send a settings change.
    SetSetting(SettingsPatch),
    /// Send a TUN settings change (the core is reconfigured).
    SetTunSetting(SettingsPatch),
    /// Show this message.
    Notify(String),
    SetAuditOpFilter(String),
    /// Export the shown audit records to this path.
    ExportAudit(String),
    Nothing,
}

/// `text` trimmed, as an owned string.
pub(crate) fn trimmed(text: &str) -> (r: String)
    ensures
        r@ == trim(text@),
{
    let v = to_chars(text);
    let (a, b) = trim_range(&v, 0, v.len());
    assert(v@.subrange(0, v@.len() as int) =~= v@);
    string_of_range(&v, a, b)
}

fn parse_trimmed(text: &str, max: u64) -> (r: Option<u64>)
    ensures
        match r {
            Some(x) => parse_unsigned(trim(text@), 10, max as nat) == Some(x as nat),
            None => parse_unsigned(trim(text@), 10, max as nat) is None,
        },
{
    let v = to_chars(text);
    let (a, b) = trim_range(&v, 0, v.len());
    assert(v@.subrange(0, v@.len() as int) =~= v@);
    parse_radix(&v, a, b, 10, max)
}

/// What submitting `text` in an input dialog asks for. Texts are trimmed;
/// an empty URL or name does nothing; a port or an interval that does not
/// read as a number of its type gives a message; lists are split at
/// commas (numbers that do not read are dropped).
pub fn submit_input_action(purpose: InputPurpose, text: &str) -> (r: InputAction)
    ensures
        purpose == InputPurpose::ImportProfileUrl ==> if trim(text@).len() > 0 {
            r matches InputAction::ImportProfile(u) && u@ == trim(text@)
        } else {
            r is Nothing
        },
        purpose == InputPurpose::FilterConnections ==> (r matches InputAction::SetConnectionsFilter(f) && f@ == trim(text@)),
        purpose == InputPurpose::FilterRules ==> (r matches InputAction::SetRulesFilter(f) && f@ == trim(text@)),
        purpose is RenameProfile ==> if trim(text@).len() > 0 {
            r matches InputAction::RenameProfile { uid, name } && uid == purpose->uid && name@ == trim(text@)
        } else {
            r is Nothing
        },
        purpose == InputPurpose::FilterProxies ==> (r matches InputAction::SetProxiesFilter(f) && f@ == trim(text@)),
        purpose == InputPurpose::FilterLogs ==> (r matches InputAction::SetLogsFilter(f) && f@ == trim(text@)),
        purpose == InputPurpose::EditMixedPort ==> match parse_unsigned(trim(text@), 10, u16::MAX as nat) {
            Some(v) => r matches InputAction::SetSetting(p) && unset_except(p, PatchField::MixedPort) && p.mixed_port
                == Some(v as u16),
            None => r matches InputAction::Notify(m) && m@ == "invalid port"@,
        },
        purpose == InputPurpose::EditAutoUpdateHours ==> match parse_unsigned(trim(text@), 10, u64::MAX as nat) {
            Some(v) => r matches InputAction::SetSetting(p) && unset_except(p, PatchField::AutoUpdateHours)
                && p.auto_update_interval_hours == Some(v as u64),
            None => r matches InputAction::Notify(m) && m@ == "invalid hours"@,
        },
        purpose == InputPurpose::EditTestUrl ==> (r matches InputAction::SetSetting(p) && unset_except(p, PatchField::TestUrl)
            && (p.test_url matches Some(u) && u@ == trim(text@))),
        purpose == InputPurpose::EditDnsHijack ==> (r matches InputAction::SetTunSetting(p) && unset_except(
            p,
            PatchField::DnsHijack,
        ) && (p.dns_hijack matches Some(l) && l@.map_values(|s: String| s@) == csv_items(text@))),
        purpose == InputPurpose::EditRouteExclude ==> (r matches InputAction::SetTunSetting(p) && unset_except(
            p,
            PatchField::RouteExclude,
        ) && (p.route_exclude_address matches Some(l) && l@.map_values(|s: String| s@) == csv_items(text@))),
        purpose == InputPurpose::EditExcludeUid ==> (r matches InputAction::SetTunSetting(p) && unset_except(
            p,
            PatchField::ExcludeUid,
        ) && (p.exclude_uid matches Some(l) && l@.map_values(|x: u32| x as nat) == parsed_items(
            csv_items(text@),
            u32::MAX as nat,
        ))),
        purpose == InputPurpose::EditExcludeInterface ==> (r matches InputAction::SetTunSetting(p) && unset_except(
            p,
            PatchField::ExcludeInterface,
        ) && (p.exclude_interface matches Some(l) && l@.map_values(|s: String| s@) == csv_items(text@))),
        purpose == InputPurpose::EditExcludeDstPort ==> (r matches InputAction::SetTunSetting(p) && unset_except(
            p,
            PatchField::ExcludeDstPort,
        ) && (p.exclude_dst_port matches Some(l) && l@.map_values(|x: u16| x as nat) == parsed_items(
            csv_items(text@),
            u16::MAX as nat,
        ))),
        purpose == InputPurpose::FilterAuditOp ==> (r matches InputAction::SetAuditOpFilter(f) && f@ == trim(text@)),
        purpose == InputPurpose::ExportAudit ==> (r matches InputAction::ExportAudit(f) && f@ == trim(text@)),
{
    match purpose {
        InputPurpose::ImportProfileUrl => {
            let url = trimmed(text);
            if url.as_str().unicode_len() > 0 {
                InputAction::ImportProfile(url)
            } else {
                InputAction::Nothing
            }
        },
        InputPurpose::FilterConnections => InputAction::SetConnectionsFilter(trimmed(text)),
        InputPurpose::FilterRules => InputAction::SetRulesFilter(trimmed(text)),
        InputPurpose::RenameProfile { uid } => {
            let name = trimmed(text);
            if name.as_str().unicode_len() > 0 {
                InputAction::RenameProfile { uid, name }
            } else {
                InputAction::Nothing
            }
        },
        InputPurpose::FilterProxies => InputAction::SetProxiesFilter(trimmed(text)),
        InputPurpose::FilterLogs => InputAction::SetLogsFilter(trimmed(text)),
        InputPurpose::EditMixedPort => match parse_trimmed(text, 0xffff) {
            Some(port) => {
                let mut p = SettingsPatch::default();
                p.mixed_port = Some(port as u16);
                InputAction::SetSetting(p)
            },
            None => InputAction::Notify(owned("invalid port")),
        },
        InputPurpose::EditAutoUpdateHours => match parse_trimmed(text, 0xffff_ffff_ffff_ffff) {
            Some(h) => {
                let mut p = SettingsPatch::default();
                p.auto_update_interval_hours = Some(h);
                InputAction::SetSetting(p)
            },
            None => InputAction::Notify(owned("invalid hours")),
        },
        InputPurpose::EditTestUrl => InputAction::SetSetting(text_patch(PatchField::TestUrl, trimmed(text))),
        InputPurpose::EditDnsHijack => {
            let mut p = SettingsPatch::default();
            p.dns_hijack = Some(split_csv(text));
            InputAction::SetTunSetting(p)
        },
        InputPurpose::EditRouteExclude => {
            let mut p = SettingsPatch::default();
            p.route_exclude_address = Some(split_csv(text));
            InputAction::SetTunSetting(p)
        },
        InputPurpose::EditExcludeUid => {
            let mut p = SettingsPatch::default();
            p.exclude_uid = Some(split_csv_u32(text));
            InputAction::SetTunSetting(p)
        },
        InputPurpose::EditExcludeInterface => {
            let mut p = SettingsPatch::default();
            p.exclude_interface = Some(split_csv(text));
            InputAction::SetTunSetting(p)
        },
        InputPurpose::EditExcludeDstPort => {
            let mut p = SettingsPatch::default();
            p.exclude_dst_port = Some(split_csv_u16(text));
            InputAction::SetTunSetting(p)
        },
        InputPurpose::FilterAuditOp => InputAction::SetAuditOpFilter(trimmed(text)),
        InputPurpose::ExportAudit => InputAction::ExportAudit(trimmed(text)),
    }
}

} // verus!

//! Text of the single-page client's screens: the menu cards and the
//! names of the node orders.

use vstd::prelude::*;
use crate::app::nettest::{NetTestTab, NodeTestInfo, SortOrder, TestStatus};
use crate::app::window::{APP, WindowState};
use crate::app::proxy::ProxyFocus;
use crate::parse::{decimal, decimal_string};
use crate::app::state::MenuItem;
use crate::tui::app::connections::ConnectionsState;
use crate::app::checker::{IPInfo, UnlockStatus};
use crate::tui::canvas::{
    delay_tone_of, Tone, bytes_or_dash, connections_summary, connections_summary_text, count_members, format_bytes_or_dash, member_total,
};

verus! {

/// Draws the screens; it keeps no state of its own.
#[derive(Debug, Default)]
pub struct Painter;

impl Painter {
    /// Whether a terminal of this size is below the 80×24 the dashboard
    /// needs, so that only a notice asking for a larger window is drawn.
    pub fn too_small(&self, width: u16, height: u16) -> (r: bool)
        ensures
            r == (width < 80 || height < 24),
    {
        width < 80 || height < 24
    }
}

/// The title, description and key hint of a menu card; the preview and
/// rules entries have no card.
pub open spec fn menu_card(item: MenuItem) -> Option<(Seq<char>, Seq<char>, Seq<char>)> {
    match item {
        MenuItem::Proxy => Some(("Proxy"@, "代理组与节点选择"@, "Enter: open · t: node delay"@)),
        MenuItem::Connections => Some(("Connections"@, "实时连接、流量与路由链路"@, "u/d: sort · x: close"@)),
        MenuItem::NetTest => Some(("Net Test"@, "节点延迟与流媒体解锁分析"@, "t: test all · Tab: switch"@)),
        _ => None,
    }
}

/// The card of a menu entry (see `menu_card`).
pub fn menu_copy(item: MenuItem) -> (r: Option<(&'static str, &'static str, &'static str)>)
    ensures
        match menu_card(item) {
            Some((t, d, a)) => r matches Some((x, y, z)) && x@ == t && y@ == d && z@ == a,
            None => r is None,
        },
{
    match item {
        MenuItem::Proxy => Some(("Proxy", "代理组与节点选择", "Enter: open · t: node delay")),
        MenuItem::Connections => Some(("Connections", "实时连接、流量与路由链路", "u/d: sort · x: close")),
        MenuItem::NetTest => Some(("Net Test", "节点延迟与流媒体解锁分析", "t: test all · Tab: switch")),
        _ => None,
    }
}

/// The name of a node order.
pub open spec fn order_name(o: SortOrder) -> Seq<char> {
    match o {
        SortOrder::Unsorted => "unsorted"@,
        SortOrder::LatencyAsc => "latency asc"@,
        SortOrder::LatencyDesc => "latency desc"@,
        SortOrder::NameAsc => "name asc"@,
        SortOrder::NameDesc => "name desc"@,
    }
}

/// The name of a node order (`latency asc`, ...).
pub fn sort_order_name(sort_order: &SortOrder) -> (r: &'static str)
    ensures
        r@ == order_name(*sort_order),
{
    match sort_order {
        SortOrder::Unsorted => "unsorted",
        SortOrder::LatencyAsc => "latency asc",
        SortOrder::LatencyDesc => "latency desc",
        SortOrder::NameAsc => "name asc",
        SortOrder::NameDesc => "name desc",
    }
}

/// The delays of the nodes whose test finished, in table order.
pub open spec fn done_delays(nodes: Seq<NodeTestInfo>) -> Seq<u16>
    decreases nodes.len(),
{
    if nodes.len() == 0 {
        Seq::empty()
    } else {
        done_delays(nodes.drop_last()) + match nodes.last().status {
            TestStatus::Done(d) => seq![d],
            _ => Seq::empty(),
        }
    }
}

/// How many nodes are being tested.
pub open spec fn testing_count(nodes: Seq<NodeTestInfo>) -> nat
    decreases nodes.len(),
{
    if nodes.len() == 0 {
        0
    } else {
        testing_count(nodes.drop_last()) + if nodes.last().status is Testing { 1nat } else { 0nat }
    }
}

/// The sum of some delays.
pub open spec fn delay_sum(s: Seq<u16>) -> nat
    decreases s.len(),
{
    if s.len() == 0 {
        0
    } else {
        delay_sum(s.drop_last()) + s.last() as nat
    }
}

/// The smallest of some delays (meaningful when there is one).
pub open spec fn delay_min(s: Seq<u16>) -> u16
    decreases s.len(),
{
    if s.len() <= 1 {
        s[0]
    } else if s.last() < delay_min(s.drop_last()) {
        s.last()
    } else {
        delay_min(s.drop_last())
    }
}

/// The figures of the latency summary.
#[derive(Debug, Clone, Copy, PartialEq, Eq)]
pub struct LatencyMetrics {
    /// Nodes in the table.
    pub total: usize,
    /// Nodes with a finished test.
    pub done: usize,
    /// Nodes being tested.
    pub testing: usize,
    /// The smallest finished delay.
    pub fastest: Option<u16>,
    /// The mean of the finished delays, rounded down.
    pub average: Option<u32>,
}

/// The latency summary of a node table: how many nodes there are, have
/// finished and are being tested, and the smallest and the mean finished
/// delay (none while no test has finished).
pub fn latency_metrics(nodes: &Vec<NodeTestInfo>) -> (r: LatencyMetrics)
    requires
        delay_sum(done_delays(nodes@)) <= u32::MAX,
        done_delays(nodes@).len() <= u32::MAX,
    ensures
        r.total == nodes@.len(),
        r.done == done_delays(nodes@).len(),
        r.testing == testing_count(nodes@),
        done_delays(nodes@).len() == 0 ==> r.fastest is None && r.average is None,
        done_delays(nodes@).len() > 0 ==> r.fastest == Some(delay_min(done_delays(nodes@)))
            && r.average == Some((delay_sum(done_delays(nodes@)) / done_delays(nodes@).len()) as u32),
{
    let n = nodes.len();
    let mut i: usize = 0;
    let mut done: usize = 0;
    let mut testing: usize = 0;
    let mut sum: u32 = 0;
    let mut fastest: u16 = 0;
    while i < n
        invariant
            n == nodes@.len(),
            i <= n,
            done == done_delays(nodes@.take(i as int)).len(),
            testing == testing_count(nodes@.take(i as int)),
            sum == delay_sum(done_delays(nodes@.take(i as int))),
            done > 0 ==> fastest == delay_min(done_delays(nodes@.take(i as int))),
            done <= i,
            testing <= i,
            delay_sum(done_delays(nodes@)) <= u32::MAX,
        decreases n - i,
    {
        proof {
            assert(nodes@.take(i + 1).drop_last() =~= nodes@.take(i as int));
            lemma_done_delays_prefix(nodes@, i + 1);
        }
        match &nodes[i].status {
            TestStatus::Done(d) => {
                let d: u16 = *d;
                proof {
                    let p = done_delays(nodes@.take(i + 1));
                    assert(p.drop_last() =~= done_delays(nodes@.take(i as int)));
                }
                sum = sum + d as u32;
                if done == 0 || d < fastest {
                    fastest = d;
                }
                done = done + 1;
            },
            TestStatus::Testing => {
                assert(done_delays(nodes@.take(i + 1)) =~= done_delays(nodes@.take(i as int)));
                testing = testing + 1;
            },
            _ => {
                assert(done_delays(nodes@.take(i + 1)) =~= done_delays(nodes@.take(i as int)));
            },
        }
        i = i + 1;
    }
    assert(nodes@.take(n as int) =~= nodes@);
    if done == 0 {
        LatencyMetrics { total: n, done: 0, testing, fastest: None, average: None }
    } else {
        LatencyMetrics { total: n, done, testing, fastest: Some(fastest), average: Some(sum / (done as u32)) }
    }
}

/// The finished delays of a prefix never sum to more than those of the
/// whole table.
proof fn lemma_done_delays_prefix(nodes: Seq<NodeTestInfo>, k: int)
    requires
        0 <= k <= nodes.len(),
    ensures
        delay_sum(done_delays(nodes.take(k))) <= delay_sum(done_delays(nodes)),
        done_delays(nodes.take(k)).len() <= done_delays(nodes).len(),
    decreases nodes.len() - k,
{
    if k < nodes.len() {
        lemma_done_delays_prefix(nodes, k + 1);
        assert(nodes.take(k + 1).drop_last() =~= nodes.take(k));
        let p = done_delays(nodes.take(k + 1));
        let q = done_delays(nodes.take(k));
        if p.len() > q.len() {
            assert(p.drop_last() =~= q);
        } else {
            assert(p =~= q);
        }
    } else {
        assert(nodes.take(k) =~= nodes);
    }
}

/// The mean delay as shown: `N ms`, `-` while none is known.
pub open spec fn average_text(avg: Option<u32>) -> Seq<char> {
    match avg {
        Some(a) => crate::parse::decimal(a as nat) + " ms"@,
        None => "-"@,
    }
}

/// The mean delay as shown on the latency summary.
pub fn format_average(avg: Option<u32>) -> (r: String)
    ensures
        r@ == average_text(avg),
{
    match avg {
        Some(a) => {
            let mut r = crate::parse::decimal_string(a as u64);
            r.append(" ms");
            r
        },
        None => String::from_str("-"),
    }
}

/// The connections summary of the single-page client: live connections,
/// upload and download totals and the backend's memory, as shown.
pub fn connection_totals(state: &ConnectionsState) -> (r: (String, String, String, String))
    ensures
        r.0@ == crate::parse::decimal(state.connections@.len()),
        r.1@ == bytes_or_dash(match state.connections_data {
            Some(d) => Some(d.upload_total),
            None => None,
        }),
        r.2@ == bytes_or_dash(match state.connections_data {
            Some(d) => Some(d.download_total),
            None => None,
        }),
        r.3@ == bytes_or_dash(match state.connections_data {
            Some(d) => Some(d.memory as u64),
            None => None,
        }),
{
    let (up, down, memory) = match &state.connections_data {
        Some(d) => (Some(d.upload_total), Some(d.download_total), Some(d.memory as u64)),
        None => (None, None, None),
    };
    (
        crate::parse::decimal_string(state.connections.len() as u64),
        format_bytes_or_dash(up),
        format_bytes_or_dash(down),
        format_bytes_or_dash(memory),
    )
}

/// The page-specific lines of the help popup: a heading, then the hints
/// for the page (and, on the test page, for its tab).
pub open spec fn help_text(page: WindowState) -> Seq<Seq<char>> {
    match page {
        WindowState::Memu => seq!["Menu"@, "Enter opens the selected workspace. Number keys jump directly."@],
        WindowState::Proxy(_) => seq![
            "Proxy"@,
            "Left/right or Tab changes focus between groups and nodes."@,
            "Enter selects the highlighted node for the active group."@,
            "t or d tests delay for the highlighted node."@,
        ],
        WindowState::Connects(_) => seq![
            "Connections"@,
            "u sorts by upload, d sorts by download, x closes the selected connection."@,
            "The list refreshes automatically every second while visible."@,
        ],
        WindowState::NetTest(s) => match s.tab {
            NetTestTab::Latency => seq![
                "Net Test / Latency"@,
                "t or r tests every known node concurrently."@,
                "s cycles sort order: latency asc/desc and name asc/desc."@,
                "Tab switches to active-node analysis."@,
            ],
            NetTestTab::Analysis => seq![
                "Net Test / Analysis"@,
                "Tab returns to latency testing."@,
                "Entering this tab triggers IP and streaming unlock checks."@,
            ],
        },
    }
}

/// The page-specific lines of the help popup.
pub fn help_section(page: &WindowState) -> (r: Vec<&'static str>)
    ensures
        r@.map_values(|x: &'static str| x@) == help_text(*page),
{
    let r: Vec<&'static str> = match page {
        WindowState::Memu => vec!["Menu", "Enter opens the selected workspace. Number keys jump directly."],
        WindowState::Proxy(_) => vec![
            "Proxy",
            "Left/right or Tab changes focus between groups and nodes.",
            "Enter selects the highlighted node for the active group.",
            "t or d tests delay for the highlighted node.",
        ],
        WindowState::Connects(_) => vec![
            "Connections",
            "u sorts by upload, d sorts by download, x closes the selected connection.",
            "The list refreshes automatically every second while visible.",
        ],
        WindowState::NetTest(s) => match s.tab {
            NetTestTab::Latency => vec![
                "Net Test / Latency",
                "t or r tests every known node concurrently.",
                "s cycles sort order: latency asc/desc and name asc/desc.",
                "Tab switches to active-node analysis.",
            ],
            NetTestTab::Analysis => vec![
                "Net Test / Analysis",
                "Tab returns to latency testing.",
                "Entering this tab triggers IP and streaming unlock checks.",
            ],
        },
    };
    assert(r@.map_values(|x: &'static str| x@) =~= help_text(*page));
    r
}

/// The heading of a menu card: its 1-based number, two spaces, the title.
pub fn menu_card_heading(idx: usize, title: &str) -> (r: String)
    requires
        idx < u64::MAX,
    ensures
        r@ == crate::parse::decimal(idx as nat + 1) + "  "@ + title@,
{
    let mut r = crate::parse::decimal_string(idx as u64 + 1);
    r.append("  ");
    r.append(title);
    r
}

/// The mark in front of a menu card: an arrow on the selected one.
pub fn menu_marker(selected: bool) -> (r: &'static str)
    ensures
        r@ == (if selected { "▶"@ } else { " "@ }),
{
    if selected {
        "▶"
    } else {
        " "
    }
}


/// The workspace tab that is lit: the page's own, or on the menu the one of
/// the selected entry (none for the preview and rules entries).
pub open spec fn tab_of(page: WindowState, item: MenuItem) -> Option<usize> {
    match page {
        WindowState::Memu => match item {
            MenuItem::Proxy => Some(0usize),
            MenuItem::Connections => Some(1usize),
            MenuItem::NetTest => Some(2usize),
            _ => None,
        },
        WindowState::Proxy(_) => Some(0usize),
        WindowState::Connects(_) => Some(1usize),
        WindowState::NetTest(_) => Some(2usize),
    }
}

/// The workspace tab that is lit (see `tab_of`).
pub fn selected_tab_index(app: &APP) -> (r: Option<usize>)
    ensures
        r == tab_of(app.current_page, app.menusate.item()),
{
    match &app.current_page {
        WindowState::Memu => match app.menusate.current() {
            MenuItem::Proxy => Some(0),
            MenuItem::Connections => Some(1),
            MenuItem::NetTest => Some(2),
            _ => None,
        },
        WindowState::Proxy(_) => Some(0),
        WindowState::Connects(_) => Some(1),
        WindowState::NetTest(_) => Some(2),
    }
}

/// The name of the open page.
pub open spec fn page_name_text(page: WindowState) -> Seq<char> {
    match page {
        WindowState::Memu => "Menu"@,
        WindowState::Proxy(_) => "Proxy"@,
        WindowState::Connects(_) => "Connections"@,
        WindowState::NetTest(_) => "Net Test"@,
    }
}

/// The name of the open page (`Menu`, `Proxy`, ...).
pub fn page_name(page: &WindowState) -> (r: &'static str)
    ensures
        r@ == page_name_text(*page),
{
    match page {
        WindowState::Memu => "Menu",
        WindowState::Proxy(_) => "Proxy",
        WindowState::Connects(_) => "Connections",
        WindowState::NetTest(_) => "Net Test",
    }
}

/// How many nodes have a finished test.
pub fn done_count(nodes: &Vec<NodeTestInfo>) -> (r: usize)
    ensures
        r == done_delays(nodes@).len(),
{
    let n = nodes.len();
    let mut i: usize = 0;
    let mut done: usize = 0;
    while i < n
        invariant
            n == nodes@.len(),
            i <= n,
            done == done_delays(nodes@.take(i as int)).len(),
            done <= i,
        decreases n - i,
    {
        proof {
            assert(nodes@.take(i + 1).drop_last() =~= nodes@.take(i as int));
        }
        if let TestStatus::Done(_) = &nodes[i].status {
            done = done + 1;
        }
        i = i + 1;
    }
    assert(nodes@.take(n as int) =~= nodes@);
    done
}

/// The summary of the overview line, for the open page.
pub open spec fn header_summary_text(page: WindowState) -> Seq<char> {
    match page {
        WindowState::Memu => "3 workspaces · keyboard-first · async actions"@,
        WindowState::Proxy(s) => decimal(s.groups@.len()) + " groups · "@ + decimal(member_total(s.groups@))
            + " selectable nodes"@,
        WindowState::Connects(s) => connections_summary_text(s),
        WindowState::NetTest(s) => decimal(s.nodes@.len()) + " nodes · "@ + decimal(done_delays(s.nodes@).len())
            + " tested"@ + if s.is_testing || s.analysis_testing { " · running"@ } else { ""@ },
    }
}

/// The summary of the overview line (see `header_summary_text`).
pub fn header_summary(page: &WindowState) -> (r: String)
    requires
        page matches WindowState::Proxy(s) ==> member_total(s.groups@) <= usize::MAX,
    ensures
        r@ == header_summary_text(*page),
{
    match page {
        WindowState::Memu => String::from_str("3 workspaces · keyboard-first · async actions"),
        WindowState::Proxy(s) => {
            let mut r = decimal_string(s.groups.len() as u64);
            r.append(" groups · ");
            let n = decimal_string(count_members(&s.groups) as u64);
            r.append(n.as_str());
            r.append(" selectable nodes");
            r
        },
        WindowState::Connects(s) => connections_summary(s),
        WindowState::NetTest(s) => {
            let mut r = decimal_string(s.nodes.len() as u64);
            r.append(" nodes · ");
            let n = decimal_string(done_count(&s.nodes) as u64);
            r.append(n.as_str());
            r.append(" tested");
            if s.is_testing || s.analysis_testing {
                r.append(" · running");
            } else {
                proof {
                    reveal_strlit("");
                    assert(r@ =~= r@ + ""@);
                }
            }
            r
        },
    }
}

/// The key hints of the footer, for the open page (and focus or tab).
pub open spec fn footer_text(page: WindowState) -> Seq<(Seq<char>, Seq<char>)> {
    match page {
        WindowState::Memu => seq![
            ("↑↓/jk"@, "select"@),
            ("Enter"@, "open"@),
            ("1-3"@, "jump"@),
            ("?"@, "help"@),
            ("q"@, "quit"@),
        ],
        WindowState::Proxy(s) => seq![
            ("↑↓/jk"@, "move"@),
            ("Tab/←→"@, if s.focus == ProxyFocus::Groups { "nodes focus"@ } else { "groups focus"@ }),
            ("Enter"@, "select"@),
            ("t"@, "test"@),
            ("Esc"@, "menu"@),
        ],
        WindowState::Connects(_) => seq![
            ("↑↓/jk"@, "move"@),
            ("u/d"@, "sort"@),
            ("x"@, "close"@),
            ("?"@, "help"@),
            ("Esc"@, "menu"@),
        ],
        WindowState::NetTest(s) => match s.tab {
            NetTestTab::Latency => seq![
                ("↑↓/jk"@, "move"@),
                ("t/r"@, "test all"@),
                ("s"@, "sort"@),
                ("Tab"@, "analysis"@),
                ("Esc"@, "menu"@),
            ],
            NetTestTab::Analysis => seq![("Tab"@, "latency"@), ("?"@, "help"@), ("Esc"@, "menu"@), ("q"@, "quit"@)],
        },
    }
}

/// The key hints of the footer (see `footer_text`), as key and label.
pub fn footer_keys(page: &WindowState) -> (r: Vec<(&'static str, &'static str)>)
    ensures
        r@.map_values(|p: (&'static str, &'static str)| (p.0@, p.1@)) == footer_text(*page),
{
    let r: Vec<(&'static str, &'static str)> = match page {
        WindowState::Memu => vec![("↑↓/jk", "select"), ("Enter", "open"), ("1-3", "jump"), ("?", "help"), ("q", "quit")],
        WindowState::Proxy(s) => {
            let focus = if s.focus == ProxyFocus::Groups {
                "nodes focus"
            } else {
                "groups focus"
            };
            vec![("↑↓/jk", "move"), ("Tab/←→", focus), ("Enter", "select"), ("t", "test"), ("Esc", "menu")]
        },
        WindowState::Connects(_) => vec![("↑↓/jk", "move"), ("u/d", "sort"), ("x", "close"), ("?", "help"), ("Esc", "menu")],
        WindowState::NetTest(s) => match s.tab {
            NetTestTab::Latency => vec![
                ("↑↓/jk", "move"),
                ("t/r", "test all"),
                ("s", "sort"),
                ("Tab", "analysis"),
                ("Esc", "menu"),
            ],
            NetTestTab::Analysis => vec![("Tab", "latency"), ("?", "help"), ("Esc", "menu"), ("q", "quit")],
        },
    };
    assert(r@.map_values(|p: (&'static str, &'static str)| (p.0@, p.1@)) =~= footer_text(*page));
    r
}


/// The label and colour of an exit address line: ready once known,
/// testing while the analysis runs, missing otherwise.
pub open spec fn ip_status_of(known: bool, testing: bool) -> (Seq<char>, Tone) {
    if known {
        ("READY"@, Tone::Success)
    } else if testing {
        ("TESTING"@, Tone::Info)
    } else {
        ("MISSING"@, Tone::Warning)
    }
}

/// The detail of an exit address line: the address and its region, `-`
/// while unknown.
pub open spec fn ip_detail(ip: Option<IPInfo>) -> Seq<char> {
    match ip {
        Some(i) => i.ip@ + "  "@ + i.region@,
        None => "-"@,
    }
}

/// An exit address line as shown: label, colour and detail.
pub fn ip_section(ip: Option<&IPInfo>, testing: bool) -> (r: (&'static str, Tone, String))
    ensures
        (r.0@, r.1) == ip_status_of(ip is Some, testing),
        r.2@ == ip_detail(match ip {
            Some(i) => Some(*i),
            None => None,
        }),
{
    match ip {
        Some(i) => {
            let mut d = i.ip.clone();
            d.append("  ");
            d.append(i.region.as_str());
            ("READY", Tone::Success, d)
        },
        None => {
            let d = String::from_str("-");
            if testing {
                ("TESTING", Tone::Info, d)
            } else {
                ("MISSING", Tone::Warning, d)
            }
        },
    }
}

/// The label, detail and colour of a streaming service line.
pub open spec fn unlock_text(status: UnlockStatus, testing: bool) -> (Seq<char>, Seq<char>, Tone) {
    match status {
        UnlockStatus::Testing => if testing {
            ("TESTING"@, "checking"@, Tone::Info)
        } else {
            ("WAIT"@, "not tested"@, Tone::Warning)
        },
        UnlockStatus::Unlocked(region) => ("OK"@, "unlocked ("@ + region@ + ")"@, Tone::Success),
        UnlockStatus::OriginalsOnly => ("PARTIAL"@, "originals only"@, Tone::Warning),
        UnlockStatus::Blocked(reason) => ("BLOCKED"@, reason@, Tone::Error),
        UnlockStatus::Error(err) => ("ERROR"@, err@, Tone::Error),
    }
}

/// A streaming service line as shown (see `unlock_text`).
pub fn unlock_line(status: &UnlockStatus, testing: bool) -> (r: (&'static str, String, Tone))
    ensures
        (r.0@, r.1@, r.2) == unlock_text(*status, testing),
{
    match status {
        UnlockStatus::Testing => if testing {
            ("TESTING", String::from_str("checking"), Tone::Info)
        } else {
            ("WAIT", String::from_str("not tested"), Tone::Warning)
        },
        UnlockStatus::Unlocked(region) => {
            let mut d = String::from_str("unlocked (");
            d.append(region.as_str());
            d.append(")");
            ("OK", d, Tone::Success)
        },
        UnlockStatus::OriginalsOnly => ("PARTIAL", String::from_str("originals only"), Tone::Warning),
        UnlockStatus::Blocked(reason) => ("BLOCKED", reason.clone(), Tone::Error),
        UnlockStatus::Error(err) => ("ERROR", err.clone(), Tone::Error),
    }
}

/// The label and colour of a node's test state; a finished test takes the
/// colour of its delay.
pub open spec fn test_status_text(status: TestStatus) -> (Seq<char>, Tone) {
    match status {
        TestStatus::Pending => ("pending"@, Tone::Muted),
        TestStatus::Testing => ("testing"@, Tone::Info),
        TestStatus::Done(d) => ("online"@, delay_tone_of(Some(d))),
        TestStatus::Timeout => ("timeout"@, Tone::Error),
        TestStatus::Error(_) => ("error"@, Tone::Error),
    }
}

/// The label and colour of a node's test state (see `test_status_text`).
pub fn test_status_style(status: &TestStatus) -> (r: (&'static str, Tone))
    ensures
        (r.0@, r.1) == test_status_text(*status),
{
    match status {
        TestStatus::Pending => ("pending", Tone::Muted),
        TestStatus::Testing => ("testing", Tone::Info),
        TestStatus::Done(d) => ("online", crate::tui::canvas::delay_tone(Some(*d))),
        TestStatus::Timeout => ("timeout", Tone::Error),
        TestStatus::Error(_) => ("error", Tone::Error),
    }
}

} // verus!

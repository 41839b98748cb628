//! The single-page client's key handling: which page is open, what each
//! key changes, and the background work it asks for (carried out by the
//! runtime, which feeds the results back to the pages).

use vstd::prelude::*;
use crate::app::nettest::{
    error_recorded, latency_recorded, next_order, nodes_moved_down, nodes_moved_up, SortOrder, node_order, nodes_set, testing_finished, NetTestState, NetTestTab,
};
use crate::app::proxy::{
    fresh_proxy_state, group_at, groups_taken, member_at, proxy_moved_down, proxy_moved_left, proxy_moved_right,
    proxy_moved_up, ProxyFocus, ProxyState,
};
use crate::tui::nav::ListCursor;
use crate::app::state::{item_position, MenuItem, MenuState};
use crate::sort::sort_by;
use crate::parse::{decimal, decimal_string};
use crate::app::checker::AnalysisResult;
use crate::tui::models::{Connections, Groups, Traffic};
use crate::tui::app::connections::{
    conn_order, connections_moved_down, connections_moved_up, connections_taken, fresh_connections_state, traffic_taken, ConnectionsSort, ConnectionsState};

verus! {

/// The open page.
#[derive(Debug)]
pub enum WindowState {
    /// The start menu.
    Memu,
    Proxy(ProxyState),
    Connects(ConnectionsState),
    NetTest(NetTestState),
}

/// Background work a key asks for.
#[derive(Debug, Clone, PartialEq, Eq)]
pub enum Effect {
    /// Quit the client.
    Terminate,
    /// Load the proxy groups.
    FetchGroups,
    /// Load the connections.
    FetchConnections,
    /// Follow the traffic stream.
    SubscribeTraffic,
    /// Load the node names for the network test.
    FetchNettestNodes,
    /// Run the exit address and streaming analysis.
    TriggerAnalysis,
    /// Select `node` in `group`, then reload the groups.
    SelectNode { group: String, node: String },
    /// Measure the delay of one node.
    TestDelay { node: String, url: String, timeout: u32 },
    /// Close one connection, then reload the connections.
    CloseConnection { id: String },
    /// Measure the delay of every node, each on its own.
    TestAll { nodes: Vec<String>, url: String, timeout: u32 },
}

/// The URL the delay tests fetch.
pub open spec fn delay_test_url() -> Seq<char> {
    "http://www.gstatic.com/generate_204"@
}

/// How long a delay test may take, in milliseconds.
pub const DELAY_TIMEOUT_MS: u32 = 5000;

/// The client: the open page, the menu, the help overlay and whether the
/// traffic stream is followed.
#[derive(Debug)]
pub struct APP {
    pub current_page: WindowState,
    pub menusate: MenuState,
    pub message: Option<String>,
    pub show_help: bool,
    pub traffic_subscription_started: bool,
}

/// The page a menu entry opens; the preview and rules entries open none.
pub open spec fn opens_page(item: MenuItem) -> bool {
    item == MenuItem::Proxy || item == MenuItem::Connections || item == MenuItem::NetTest
}

/// An empty network test page whose analysis is running.
pub open spec fn fresh_analysing_nettest(s: NetTestState) -> bool {
    &&& s.nodes@.len() == 0
    &&& s.list_state == (ListCursor { selected: None, offset: 0 })
    &&& s.sort_order == SortOrder::Unsorted
    &&& !s.is_testing
    &&& s.tab == NetTestTab::Analysis
    &&& crate::app::checker::pending_analysis(s.analysis_result)
    &&& s.analysis_testing
}

/// `after` is `before` once the page of the menu entry `item` is opened
/// (see `switch_page`), `r` the work asked for: a fresh proxy page and the
/// groups; a fresh connections page, the connections and the traffic
/// stream (once); a fresh network test page with its analysis running,
/// the node names and the analysis. Other entries change nothing.
pub open spec fn page_switched(item: MenuItem, before: APP, after: APP, r: Seq<Effect>) -> bool {
    &&& after.menusate == before.menusate
    &&& after.show_help == before.show_help
    &&& after.message == before.message
    &&& match item {
        MenuItem::Proxy => {
            &&& r == seq![Effect::FetchGroups]
            &&& after.traffic_subscription_started == before.traffic_subscription_started
            &&& after.current_page matches WindowState::Proxy(s) && fresh_proxy_state(s)
        },
        MenuItem::Connections => {
            &&& r == seq![Effect::FetchConnections] + (if before.traffic_subscription_started {
                Seq::empty()
            } else {
                seq![Effect::SubscribeTraffic]
            })
            &&& after.traffic_subscription_started
            &&& after.current_page matches WindowState::Connects(s) && fresh_connections_state(s)
        },
        MenuItem::NetTest => {
            &&& r == seq![Effect::FetchNettestNodes, Effect::TriggerAnalysis]
            &&& after.traffic_subscription_started == before.traffic_subscription_started
            &&& after.current_page matches WindowState::NetTest(s) && fresh_analysing_nettest(s)
        },
        _ => {
            &&& r == Seq::<Effect>::empty()
            &&& after.current_page == before.current_page
            &&& after.traffic_subscription_started == before.traffic_subscription_started
        },
    }
}

/// `after` and `before` have the same help, message and traffic flag.
pub open spec fn same_chrome(before: APP, after: APP) -> bool {
    &&& after.show_help == before.show_help
    &&& after.message == before.message
    &&& after.traffic_subscription_started == before.traffic_subscription_started
}

/// `after` is `before` after the up arrow: the previous menu entry on the
/// menu, else the open page's own up arrow with the menu kept.
pub open spec fn app_moved_up(before: APP, after: APP) -> bool {
    &&& same_chrome(before, after)
    &&& match before.current_page {
        WindowState::Memu => after.current_page is Memu && item_position(after.menusate.item()) == (if item_position(
            before.menusate.item(),
        ) > 0 {
            item_position(before.menusate.item()) - 1
        } else {
            0
        }),
        WindowState::Proxy(s) => after.menusate == before.menusate && (after.current_page matches WindowState::Proxy(t)
            && proxy_moved_up(s, t)),
        WindowState::Connects(s) => after.menusate == before.menusate && (after.current_page matches WindowState::Connects(
            t,
        ) && connections_moved_up(s, t)),
        WindowState::NetTest(s) => after.menusate == before.menusate && (after.current_page matches WindowState::NetTest(t)
            && nodes_moved_up(s, t)),
    }
}

/// `after` is `before` after the down arrow: the next menu entry on the
/// menu, else the open page's own down arrow with the menu kept.
pub open spec fn app_moved_down(before: APP, after: APP) -> bool {
    &&& same_chrome(before, after)
    &&& match before.current_page {
        WindowState::Memu => after.current_page is Memu && item_position(after.menusate.item()) == (if item_position(
            before.menusate.item(),
        ) < 4 {
            item_position(before.menusate.item()) + 1
        } else {
            4
        }),
        WindowState::Proxy(s) => after.menusate == before.menusate && (after.current_page matches WindowState::Proxy(t)
            && proxy_moved_down(s, t)),
        WindowState::Connects(s) => after.menusate == before.menusate && (after.current_page matches WindowState::Connects(
            t,
        ) && connections_moved_down(s, t)),
        WindowState::NetTest(s) => after.menusate == before.menusate && (after.current_page matches WindowState::NetTest(t)
            && nodes_moved_down(s, t)),
    }
}

/// `after` is `before` after the left arrow: the proxy page focuses its
/// groups; elsewhere nothing changes.
pub open spec fn app_moved_left(before: APP, after: APP) -> bool {
    &&& same_chrome(before, after)
    &&& after.menusate == before.menusate
    &&& match before.current_page {
        WindowState::Proxy(s) => after.current_page matches WindowState::Proxy(t) && proxy_moved_left(s, t),
        _ => after.current_page == before.current_page,
    }
}

/// `after` is `before` after the right arrow: the proxy page focuses its
/// members; elsewhere nothing changes.
pub open spec fn app_moved_right(before: APP, after: APP) -> bool {
    &&& same_chrome(before, after)
    &&& after.menusate == before.menusate
    &&& match before.current_page {
        WindowState::Proxy(s) => after.current_page matches WindowState::Proxy(t) && proxy_moved_right(s, t),
        _ => after.current_page == before.current_page,
    }
}

impl APP {
    /// The menu, without help, not following the traffic.
    pub fn init() -> (r: Self)
        ensures
            r.current_page is Memu,
            r.menusate.item() == MenuItem::Preview,
            r.message is None,
            !r.show_help,
            !r.traffic_subscription_started,
    {
        APP {
            current_page: WindowState::Memu,
            menusate: MenuState::init(),
            message: None,
            show_help: false,
            traffic_subscription_started: false,
        }
    }

    /// Starts following the traffic stream, once.
    pub fn subscribe_traffic(&mut self) -> (r: Vec<Effect>)
        ensures
            final(self).traffic_subscription_started,
            r@ == (if old(self).traffic_subscription_started { Seq::empty() } else { seq![Effect::SubscribeTraffic] }),
            final(self).current_page == old(self).current_page,
            final(self).show_help == old(self).show_help,
            final(self).menusate == old(self).menusate,
            final(self).message == old(self).message,
    {
        if self.traffic_subscription_started {
            return Vec::new();
        }
        self.traffic_subscription_started = true;
        vec![Effect::SubscribeTraffic]
    }

    /// Starts the analysis unless the network test page shows one running;
    /// on that page it is marked as running.
    pub fn trigger_analysis(&mut self) -> (r: Vec<Effect>)
        ensures
            (match old(self).current_page {
                WindowState::NetTest(s) => s.analysis_testing,
                _ => false,
            }) ==> r@ == Seq::<Effect>::empty() && final(self).current_page == old(self).current_page,
            !(match old(self).current_page {
                WindowState::NetTest(s) => s.analysis_testing,
                _ => false,
            }) ==> r@ == seq![Effect::TriggerAnalysis] && match old(self).current_page {
                WindowState::NetTest(s) => final(self).current_page matches WindowState::NetTest(t)
                    && t.analysis_testing && t.nodes == s.nodes && t.tab == s.tab && t.is_testing == s.is_testing
                    && t.sort_order == s.sort_order && t.list_state == s.list_state
                    && t.analysis_result == s.analysis_result,
                _ => final(self).current_page == old(self).current_page,
            },
            final(self).message == old(self).message,
            final(self).show_help == old(self).show_help,
            final(self).menusate == old(self).menusate,
            final(self).traffic_subscription_started == old(self).traffic_subscription_started,
    {
        if let WindowState::NetTest(state) = &mut self.current_page {
            if state.analysis_testing {
                return Vec::new();
            }
            state.analysis_testing = true;
        }
        vec![Effect::TriggerAnalysis]
    }

    /// Opens the page of a menu entry, fresh, with the work that loads it:
    /// the groups for the proxy page; the connections and the traffic
    /// stream (once) for the connections page; the node names and the
    /// analysis for the network test page. The other entries open nothing.
    pub fn switch_page(&mut self, item: MenuItem) -> (r: Vec<Effect>)
        ensures
            page_switched(item, *old(self), *final(self), r@),
    {
        match item {
            MenuItem::Proxy => {
                self.current_page = WindowState::Proxy(ProxyState::new());
                let r = vec![Effect::FetchGroups];
                assert(r@ =~= seq![Effect::FetchGroups]);
                r
            },
            MenuItem::Connections => {
                self.current_page = WindowState::Connects(ConnectionsState::new());
                let ghost started = self.traffic_subscription_started;
                let mut r = vec![Effect::FetchConnections];
                let mut more = self.subscribe_traffic();
                r.append(&mut more);
                assert(r@ =~= seq![Effect::FetchConnections] + (if started {
                    Seq::empty()
                } else {
                    seq![Effect::SubscribeTraffic]
                }));
                r
            },
            MenuItem::NetTest => {
                self.current_page = WindowState::NetTest(NetTestState::new());
                let mut r = vec![Effect::FetchNettestNodes];
                let mut more = self.trigger_analysis();
                r.append(&mut more);
                assert(r@ =~= seq![Effect::FetchNettestNodes, Effect::TriggerAnalysis]);
                r
            },
            _ => Vec::new(),
        }
    }

    /// Up arrow: the previous menu entry, or the page's own up arrow.
    pub fn on_up_key(&mut self)
        ensures
            app_moved_up(*old(self), *final(self)),
    {
        match &mut self.current_page {
            WindowState::Memu => self.menusate.prev(),
            WindowState::Proxy(state) => state.on_up_key(),
            WindowState::Connects(state) => state.on_up_key(),
            WindowState::NetTest(state) => state.on_up_key(),
        }
    }

    /// Down arrow: the next menu entry, or the page's own down arrow.
    pub fn on_down_key(&mut self)
        ensures
            app_moved_down(*old(self), *final(self)),
    {
        match &mut self.current_page {
            WindowState::Memu => self.menusate.next(),
            WindowState::Proxy(state) => state.on_down_key(),
            WindowState::Connects(state) => state.on_down_key(),
            WindowState::NetTest(state) => state.on_down_key(),
        }
    }

    /// Left arrow: the proxy page focuses its groups.
    pub fn on_left_key(&mut self)
        ensures
            app_moved_left(*old(self), *final(self)),
    {
        if let WindowState::Proxy(state) = &mut self.current_page {
            state.on_left_key();
        }
    }

    /// Right arrow: the proxy page focuses its members.
    pub fn on_right_key(&mut self)
        ensures
            app_moved_right(*old(self), *final(self)),
    {
        if let WindowState::Proxy(state) = &mut self.current_page {
            state.on_right_key();
        }
    }

    /// Tab: on the menu, opens the entry under the cursor; on the network
    /// test page, switches between its views (entering the analysis view
    /// starts the analysis); on the proxy page, switches the focus; on any
    /// other page, returns to the menu.
    pub fn on_tab_key(&mut self) -> (r: Vec<Effect>)
        ensures
            final(self).show_help == old(self).show_help,
            old(self).current_page is Connects ==> final(self).current_page is Memu && r@.len() == 0,
            old(self).current_page is Proxy ==> r@.len() == 0 && (final(self).current_page matches WindowState::Proxy(s)
                && s.focus == (if old(self).current_page->Proxy_0.focus == ProxyFocus::Groups {
                ProxyFocus::Proxies
            } else {
                ProxyFocus::Groups
            })),
            old(self).current_page is NetTest ==> (final(self).current_page matches WindowState::NetTest(s)
                && s.tab == (if old(self).current_page->NetTest_0.tab == NetTestTab::Latency {
                NetTestTab::Analysis
            } else {
                NetTestTab::Latency
            }) && (old(self).current_page->NetTest_0.tab == NetTestTab::Latency && !old(
                self,
            ).current_page->NetTest_0.analysis_testing <==> r@ =~= seq![Effect::TriggerAnalysis])),
            old(self).current_page is Memu ==> !opens_page(old(self).menusate.item()) ==> r@.len() == 0,
    {
        match &mut self.current_page {
            WindowState::Memu => {
                let item = self.menusate.current();
                self.switch_page(item)
            },
            WindowState::NetTest(state) => {
                let entering = state.tab == NetTestTab::Latency;
                state.tab = if entering { NetTestTab::Analysis } else { NetTestTab::Latency };
                if entering && !state.analysis_testing {
                    state.analysis_testing = true;
                    vec![Effect::TriggerAnalysis]
                } else {
                    Vec::new()
                }
            },
            WindowState::Proxy(state) => {
                if state.focus == ProxyFocus::Groups {
                    state.on_right_key();
                } else {
                    state.on_left_key();
                }
                Vec::new()
            },
            _ => {
                self.current_page = WindowState::Memu;
                Vec::new()
            },
        }
    }

    /// Escape: closes the help overlay; else quits from the menu or
    /// returns to it from a page.
    pub fn on_esc_key(&mut self) -> (r: Vec<Effect>)
        ensures
            old(self).show_help ==> !final(self).show_help && r@.len() == 0 && final(self).current_page
                == old(self).current_page,
            !old(self).show_help && old(self).current_page is Memu ==> r@ == seq![Effect::Terminate]
                && final(self).current_page is Memu,
            !old(self).show_help && !(old(self).current_page is Memu) ==> r@.len() == 0
                && final(self).current_page is Memu,
            !old(self).show_help ==> !final(self).show_help,
    {
        if self.show_help {
            self.show_help = false;
            return Vec::new();
        }
        if let WindowState::Memu = self.current_page {
            vec![Effect::Terminate]
        } else {
            self.current_page = WindowState::Memu;
            Vec::new()
        }
    }

    /// Enter: on the menu, opens the entry under the cursor; on the proxy
    /// page with the members focused, selects the member under the cursor
    /// in its group.
    pub fn on_enter_key(&mut self) -> (r: Vec<Effect>)
        ensures
            final(self).show_help == old(self).show_help,
            old(self).current_page is Proxy ==> final(self).current_page == old(self).current_page && {
                let s = old(self).current_page->Proxy_0;
                if s.focus == ProxyFocus::Proxies {
                    match member_at(s.groups@, s.group_list_state.selected, s.proxy_list_state.selected) {
                        Some(n) => r@.len() == 1 && (r@[0] matches Effect::SelectNode { group, node } && node@ == n
                            && group@ == group_at(s.groups@, s.group_list_state.selected).unwrap().name@),
                        None => r@.len() == 0,
                    }
                } else {
                    r@.len() == 0
                }
            },
            (old(self).current_page is Connects || old(self).current_page is NetTest) ==> r@.len() == 0
                && final(self).current_page == old(self).current_page,
    {
        match &mut self.current_page {
            WindowState::Memu => {
                let item = self.menusate.current();
                self.switch_page(item)
            },
            WindowState::Proxy(state) => {
                if state.focus != ProxyFocus::Proxies {
                    return Vec::new();
                }
                match state.selected_node() {
                    Some((group, node)) => {
                        let mut g = String::new();
                        g.append(group);
                        let mut n = String::new();
                        n.append(node);
                        vec![Effect::SelectNode { group: g, node: n }]
                    },
                    None => Vec::new(),
                }
            },
            _ => Vec::new(),
        }
    }

    /// A typed key. `?` toggles the help overlay, `q` quits, `j`/`k`/`h`/`l`
    /// are the arrows and `1`-`3` open the proxy, connections and network
    /// test pages, whatever is open. Otherwise, unless the help overlay is
    /// open: on the proxy page with the members focused, `d` or `t` tests
    /// the delay of the member under the cursor; on the connections page
    /// `u` and `d` order by upload and download and `x` closes the
    /// connection under the cursor; on the network test page `s` switches
    /// the order and `t` or `r` tests every node unless a test runs.
    pub fn on_char(&mut self, c: char) -> (r: Vec<Effect>)
        ensures
            c == '?' ==> r@.len() == 0 && *final(self) == (APP { show_help: !old(self).show_help, ..*old(self) }),
            c == 'q' ==> r@ == seq![Effect::Terminate] && *final(self) == *old(self),
            c == 'j' ==> r@.len() == 0 && app_moved_down(*old(self), *final(self)),
            c == 'k' ==> r@.len() == 0 && app_moved_up(*old(self), *final(self)),
            c == 'h' ==> r@.len() == 0 && app_moved_left(*old(self), *final(self)),
            c == 'l' ==> r@.len() == 0 && app_moved_right(*old(self), *final(self)),
            c == '1' ==> page_switched(MenuItem::Proxy, *old(self), *final(self), r@),
            c == '2' ==> page_switched(MenuItem::Connections, *old(self), *final(self), r@),
            c == '3' ==> page_switched(MenuItem::NetTest, *old(self), *final(self), r@),
            old(self).show_help && !is_global_key(c) ==> r@.len() == 0 && *final(self) == *old(self),
            !is_global_key(c) ==> same_chrome(*old(self), *final(self)) && final(self).menusate == old(self).menusate,
            !old(self).show_help && !is_global_key(c) ==> page_char_effects(old(self).current_page, c, r@)
                && page_char_state(old(self).current_page, c, final(self).current_page),
    {
        if c == '?' {
            self.show_help = !self.show_help;
            return Vec::new();
        }
        if c == 'q' {
            return vec![Effect::Terminate];
        }
        if c == 'j' {
            self.on_down_key();
            return Vec::new();
        }
        if c == 'k' {
            self.on_up_key();
            return Vec::new();
        }
        if c == 'h' {
            self.on_left_key();
            return Vec::new();
        }
        if c == 'l' {
            self.on_right_key();
            return Vec::new();
        }
        if c == '1' {
            return self.switch_page(MenuItem::Proxy);
        }
        if c == '2' {
            return self.switch_page(MenuItem::Connections);
        }
        if c == '3' {
            return self.switch_page(MenuItem::NetTest);
        }
        if self.show_help {
            return Vec::new();
        }
        let reads = page_read_effects(&self.current_page, c);
        if let WindowState::Connects(state) = &mut self.current_page {
            if c == 'u' {
                state.sort_by_upload();
            } else if c == 'd' {
                state.sort_by_download();
            }
            return reads;
        }
        if let WindowState::NetTest(state) = &mut self.current_page {
            if c == 's' {
                state.sort();
            } else if c == 't' || c == 'r' {
                if state.start_testing_all() {
                    let nodes = node_names(&state.nodes);
                    let mut url = String::new();
                    url.append("http://www.gstatic.com/generate_204");
                    return vec![Effect::TestAll { nodes, url, timeout: DELAY_TIMEOUT_MS }];
                }
            }
            return reads;
        }
        reads
    }
}

/// `after` is `before` once the outcome of `node`'s delay test is
/// recorded: its delay, or the failure.
pub open spec fn recorded(before: NetTestState, after: NetTestState, node: &str, outcome: Result<u16, String>) -> bool {
    match outcome {
        Ok(d) => latency_recorded(before, after, node, d),
        Err(e) => error_recorded(before, after, node, e),
    }
}

/// `after` is `before` once the outcome of `node`'s delay test is recorded
/// and the run is ended if every node then has a result.
pub open spec fn node_result_taken(before: NetTestState, after: NetTestState, node: &str, outcome: Result<u16, String>) -> bool {
    exists|mid: NetTestState, done: bool| recorded(before, mid, node, outcome) && testing_finished(mid, after, done)
}

impl APP {
    /// New groups reach the proxy page only while it is shown.
    pub fn apply_groups(&mut self, groups: Groups)
        ensures
            final(self).show_help == old(self).show_help,
            final(self).menusate == old(self).menusate,
            final(self).message == old(self).message,
            !(old(self).current_page is Proxy) ==> final(self).current_page == old(self).current_page,
            old(self).current_page matches WindowState::Proxy(s) ==> (final(self).current_page matches WindowState::Proxy(
                t,
            ) && groups_taken(s, t, groups)),
            final(self).traffic_subscription_started == old(self).traffic_subscription_started,
    {
        if let WindowState::Proxy(state) = &mut self.current_page {
            state.update_groups(groups);
        }
    }

    /// New connections reach the connections page only while it is shown.
    pub fn apply_connections(&mut self, connections: Connections)
        ensures
            final(self).show_help == old(self).show_help,
            final(self).menusate == old(self).menusate,
            final(self).message == old(self).message,
            !(old(self).current_page is Connects) ==> final(self).current_page == old(self).current_page,
            old(self).current_page matches WindowState::Connects(s) ==> (final(self).current_page matches WindowState::Connects(
                t,
            ) && connections_taken(s, t, connections)),
            final(self).traffic_subscription_started == old(self).traffic_subscription_started,
    {
        if let WindowState::Connects(state) = &mut self.current_page {
            state.update_connections(connections);
        }
    }

    /// A traffic sample reaches the connections page only while it is
    /// shown.
    pub fn apply_traffic(&mut self, traffic: Traffic)
        ensures
            final(self).show_help == old(self).show_help,
            final(self).menusate == old(self).menusate,
            final(self).message == old(self).message,
            !(old(self).current_page is Connects) ==> final(self).current_page == old(self).current_page,
            old(self).current_page matches WindowState::Connects(s) ==> (final(self).current_page matches WindowState::Connects(
                t,
            ) && traffic_taken(s, t, traffic)),
            final(self).traffic_subscription_started == old(self).traffic_subscription_started,
    {
        if let WindowState::Connects(state) = &mut self.current_page {
            state.update_traffic(traffic);
        }
    }

    /// The node names reach the network test page only while it is shown.
    pub fn apply_nettest_nodes(&mut self, names: Vec<String>)
        ensures
            final(self).show_help == old(self).show_help,
            final(self).menusate == old(self).menusate,
            final(self).message == old(self).message,
            !(old(self).current_page is NetTest) ==> final(self).current_page == old(self).current_page,
            old(self).current_page matches WindowState::NetTest(s) ==> (final(self).current_page matches WindowState::NetTest(
                t,
            ) && nodes_set(s, t, names)),
            final(self).traffic_subscription_started == old(self).traffic_subscription_started,
    {
        if let WindowState::NetTest(state) = &mut self.current_page {
            state.set_nodes(names);
        }
    }

    /// A finished analysis reaches the network test page only while it is
    /// shown, where it is no longer running.
    pub fn apply_analysis(&mut self, result: AnalysisResult)
        ensures
            final(self).show_help == old(self).show_help,
            final(self).menusate == old(self).menusate,
            final(self).message == old(self).message,
            !(old(self).current_page is NetTest) ==> final(self).current_page == old(self).current_page,
            old(self).current_page is NetTest ==> (final(self).current_page matches WindowState::NetTest(s)
                && s.analysis_result == result && !s.analysis_testing),
    {
        if let WindowState::NetTest(state) = &mut self.current_page {
            state.analysis_result = result;
            state.analysis_testing = false;
        }
    }

    /// The outcome of one node's delay test in a full run: its delay, or
    /// the error; the run ends when every node has a result. Outside the
    /// network test page nothing changes.
    pub fn apply_node_result(&mut self, node: &str, outcome: Result<u16, String>)
        ensures
            final(self).show_help == old(self).show_help,
            final(self).menusate == old(self).menusate,
            final(self).message == old(self).message,
            !(old(self).current_page is NetTest) ==> final(self).current_page == old(self).current_page,
            old(self).current_page matches WindowState::NetTest(s) ==> (final(self).current_page matches WindowState::NetTest(
                t,
            ) && node_result_taken(s, t, node, outcome)),
            final(self).traffic_subscription_started == old(self).traffic_subscription_started,
    {
        if let WindowState::NetTest(state) = &mut self.current_page {
            let ghost s0 = *state;
            match outcome {
                Ok(delay) => state.update_node_latency(node, delay),
                Err(e) => state.update_node_error(node, e),
            }
            let ghost mid = *state;
            let done = state.finish_testing_if_complete();
            assert(recorded(s0, mid, node, outcome) && testing_finished(mid, *state, done));
        }
    }

    /// Reports a finished delay test on the message bar:
    /// `Node '<node>' delay: <ms>ms`.
    pub fn node_tested(&mut self, node: &str, delay: u16)
        ensures
            final(self).message matches Some(m) && m@ == "Node '"@ + node@ + "' delay: "@ + decimal(delay as nat)
                + "ms"@,
            final(self).current_page == old(self).current_page,
            final(self).show_help == old(self).show_help,
            final(self).menusate == old(self).menusate,
    {
        let mut m = String::from_str("Node '");
        m.append(node);
        m.append("' delay: ");
        let d = decimal_string(delay as u64);
        m.append(d.as_str());
        m.append("ms");
        self.message = Some(m);
    }

    /// Puts an error on the message bar.
    pub fn show_error(&mut self, message: String)
        ensures
            final(self).message == Some(message),
            final(self).current_page == old(self).current_page,
            final(self).show_help == old(self).show_help,
            final(self).menusate == old(self).menusate,
    {
        self.message = Some(message);
    }
}

/// The work that a page key asks for without changing the page: a delay
/// test of the proxy member under the cursor, or closing the connection
/// under the cursor.
fn page_read_effects(page: &WindowState, c: char) -> (r: Vec<Effect>)
    ensures
        match *page {
            WindowState::Proxy(_) => page_char_effects(*page, c, r@),
            WindowState::Connects(_) => page_char_effects(*page, c, r@),
            _ => r@.len() == 0,
        },
{
    match page {
        WindowState::Proxy(state) => {
            if (c == 'd' || c == 't') && state.focus == ProxyFocus::Proxies {
                match state.selected_node() {
                    Some((_, node)) => {
                        let mut n = String::new();
                        n.append(node);
                        let mut url = String::new();
                        url.append("http://www.gstatic.com/generate_204");
                        vec![Effect::TestDelay { node: n, url, timeout: DELAY_TIMEOUT_MS }]
                    },
                    None => Vec::new(),
                }
            } else {
                Vec::new()
            }
        },
        WindowState::Connects(state) => {
            if c == 'x' {
                match state.list_state.selected {
                    Some(i) => if i < state.connections.len() {
                        vec![Effect::CloseConnection { id: state.connections[i].id.clone() }]
                    } else {
                        Vec::new()
                    },
                    None => Vec::new(),
                }
            } else {
                Vec::new()
            }
        },
        _ => Vec::new(),
    }
}

/// The names of the nodes, in order.
fn node_names(nodes: &Vec<crate::app::nettest::NodeTestInfo>) -> (r: Vec<String>)
    ensures
        r@.len() == nodes@.len(),
        forall|k: int| 0 <= k < nodes@.len() ==> #[trigger] r@[k] == nodes@[k].name,
{
    let mut r: Vec<String> = Vec::new();
    let mut i: usize = 0;
    while i < nodes.len()
        invariant
            i <= nodes@.len(),
            r@.len() == i,
            forall|k: int| 0 <= k < i ==> #[trigger] r@[k] == nodes@[k].name,
        decreases nodes@.len() - i,
    {
        r.push(nodes[i].name.clone());
        i = i + 1;
    }
    r
}

/// The keys that act whatever page is open.
pub open spec fn is_global_key(c: char) -> bool {
    c == '?' || c == 'q' || c == 'j' || c == 'k' || c == 'h' || c == 'l' || c == '1' || c == '2' || c == '3'
}

/// The work a page key asks for (see `APP::on_char`).
pub open spec fn page_char_effects(page: WindowState, c: char, r: Seq<Effect>) -> bool {
    match page {
        WindowState::Memu => r.len() == 0,
        WindowState::Proxy(s) => if (c == 'd' || c == 't') && s.focus == ProxyFocus::Proxies {
            match member_at(s.groups@, s.group_list_state.selected, s.proxy_list_state.selected) {
                Some(n) => r.len() == 1 && (r[0] matches Effect::TestDelay { node, url, timeout } && node@ == n
                    && url@ == delay_test_url() && timeout == DELAY_TIMEOUT_MS),
                None => r.len() == 0,
            }
        } else {
            r.len() == 0
        },
        WindowState::Connects(s) => if c == 'x' {
            match s.list_state.selected {
                Some(i) => if i < s.connections@.len() {
                    r.len() == 1 && (r[0] matches Effect::CloseConnection { id } && id == s.connections@[i as int].id)
                } else {
                    r.len() == 0
                },
                None => r.len() == 0,
            }
        } else {
            r.len() == 0
        },
        WindowState::NetTest(s) => if (c == 't' || c == 'r') && s.nodes@.len() > 0 && !s.is_testing {
            r.len() == 1 && (r[0] matches Effect::TestAll { nodes, url, timeout } && nodes@.len() == s.nodes@.len()
                && (forall|k: int| 0 <= k < nodes@.len() ==> #[trigger] nodes@[k] == s.nodes@[k].name)
                && url@ == delay_test_url() && timeout == DELAY_TIMEOUT_MS)
        } else {
            r.len() == 0
        },
    }
}

/// How a page key changes the page (see `APP::on_char`).
pub open spec fn page_char_state(page: WindowState, c: char, after: WindowState) -> bool {
    match page {
        WindowState::Connects(s) => if c == 'u' || c == 'd' {
            let sort = if c == 'u' { ConnectionsSort::Upload } else { ConnectionsSort::Download };
            after matches WindowState::Connects(t) && t.sort == sort && t.connections@ == sort_by(
                s.connections@,
                conn_order(sort),
            )
        } else {
            after == page
        },
        WindowState::NetTest(s) => if c == 's' {
            after matches WindowState::NetTest(t) && t.sort_order == next_order(s.sort_order) && t.nodes@ == sort_by(
                s.nodes@,
                node_order(next_order(s.sort_order)),
            )
        } else if (c == 't' || c == 'r') && s.nodes@.len() > 0 && !s.is_testing {
            after matches WindowState::NetTest(t) && t.is_testing && t.nodes@.len() == s.nodes@.len()
        } else {
            after == page
        },
        _ => after == page,
    }
}

} // verus!

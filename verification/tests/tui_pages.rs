use clard::tui::app::proxy::ProxyState;
use clard::tui::app::settings::{DnsRow, GeneralRow, SettingsState, SettingsTab, TunRow};
use clard::tui::models::{BackupItem, DelayHistory, Groups, Proxy, ProxyType};
use clard::tui::nav::{move_list_cursor, ListCursor};

fn proxy_group(name: &str, now: Option<&str>, all: Vec<&str>) -> Proxy {
    Proxy {
        all: Some(all.into_iter().map(ToString::to_string).collect()),
        now: now.map(ToString::to_string),
        name: name.to_string(),
        alive: true,
        history: Vec::new(),
        extra: Vec::new(),
        proxy_type: ProxyType::Selector,
        udp: true,
        uot: false,
        xudp: false,
        tfo: false,
        mptcp: false,
        smux: false,
        expected_status: None,
        fixed: None,
        hidden: None,
        icon: None,
        test_url: None,
        id: None,
        provider_name: None,
        interface: String::new(),
        dialer_proxy: String::new(),
        routing_mark: 0,
    }
}

fn shown(state: &ProxyState, i: usize) -> Vec<&str> {
    state.groups[i].all.as_ref().map(|v| v.iter().map(String::as_str).collect()).unwrap_or_default()
}

#[test]
fn node_extra_indexes_delay_from_node_proxies() {
    let mut state = ProxyState::new();
    let mut node_a = proxy_group("node-a", None, vec![]);
    node_a.history = vec![DelayHistory { time: "t".into(), delay: 120 }];
    let mut node_b = proxy_group("node-b", None, vec![]);
    node_b.history = vec![DelayHistory { time: "t".into(), delay: 0 }];
    state.update_groups(Groups {
        proxies: vec![proxy_group("group", None, vec!["node-a", "node-b"]), node_a, node_b],
    });

    assert_eq!(state.node_extra_of("node-a").unwrap().history.last().map(|h| h.delay), Some(120));
    assert_eq!(
        state.node_extra_of("node-b").unwrap().history.last().map(|h| h.delay),
        Some(0),
        "a timed-out node has delay 0"
    );
    assert_eq!(state.groups.len(), 1);
}

#[test]
fn selected_group_nodes_returns_highlighted_group_all() {
    let mut state = ProxyState::new();
    state.update_groups(Groups {
        proxies: vec![proxy_group("group-a", None, vec!["n1", "n2"]), proxy_group("group-b", None, vec!["n3"])],
    });
    state.group_list_state.select(Some(1));

    let mut nodes = state.selected_group_nodes();
    nodes.sort();
    assert_eq!(nodes, vec!["n3"], "only the selected group (group-b)");
}

#[test]
fn apply_node_delay_writes_history_and_clears_testing() {
    let mut state = ProxyState::new();
    state.update_groups(Groups { proxies: vec![proxy_group("group", None, vec!["node-a"])] });
    state.set_node_testing(&["node-a".to_string()]);
    assert!(state.is_node_testing("node-a"));

    state.apply_node_delay("node-a", 132);
    assert!(!state.is_node_testing("node-a"), "no longer testing once done");
    assert_eq!(state.node_extra_of("node-a").unwrap().history.last().map(|h| h.delay), Some(132));
    assert!(state.node_extra_of("node-a").unwrap().alive);

    state.apply_node_delay("node-a", 0);
    assert!(!state.node_extra_of("node-a").unwrap().alive, "delay 0 (timeout) marks it dead");
    assert_eq!(state.node_extra_of("node-a").unwrap().history.len(), 2);
}

#[test]
fn default_sort_is_name_ascending() {
    let mut state = ProxyState::new();
    state.update_groups(Groups { proxies: vec![proxy_group("group", None, vec!["banana", "apple", "Cherry"])] });
    assert_eq!(shown(&state, 0), vec!["apple", "banana", "Cherry"], "by name, ASCII case ignored");
}

#[test]
fn filter_narrows_nodes_and_restores_all() {
    let mut state = ProxyState::new();
    state.update_groups(Groups { proxies: vec![proxy_group("group", None, vec!["apple", "banana", "cherry"])] });

    state.set_filter("an".to_string());
    assert_eq!(shown(&state, 0), vec!["banana"], "only banana contains 'an'");
    assert!(state.selected_node().is_some());

    state.set_filter("a".to_string());
    assert_eq!(state.groups[0].all.as_ref().map(Vec::len), Some(2), "apple/banana contain 'a', cherry does not");

    state.set_filter(String::new());
    assert_eq!(state.groups[0].all.as_ref().map(Vec::len), Some(3));
}

#[test]
fn delay_history_keeps_ten_and_filter_is_case_insensitive() {
    let mut state = ProxyState::new();
    state.update_groups(Groups { proxies: vec![proxy_group("g", None, vec!["Alpha", "beta"])] });
    for d in 1..=12u16 {
        state.apply_node_delay("Alpha", d);
    }
    let h = &state.node_extra_of("Alpha").unwrap().history;
    assert_eq!(h.len(), 10);
    assert_eq!(h[0].delay, 3);
    assert_eq!(h[9].delay, 12);
    assert!(state.node_extra_of("gamma").is_none());
    state.set_filter("ALP".to_string());
    assert_eq!(shown(&state, 0), vec!["Alpha"]);
    state.set_filter("zzz".to_string());
    assert_eq!(state.selected_node(), None, "no member shown, no member selected");
    state.set_filter(String::new());
    assert_eq!(state.selected_node(), Some(("g", "Alpha")));
    assert_eq!(state.selected_group_nodes(), vec!["Alpha".to_string(), "beta".to_string()]);
}

#[test]
fn moves_within_viewport_without_scrolling() {
    let mut st = ListCursor::default();
    st.select(Some(3));
    move_list_cursor(&mut st, 100, 10, 1);
    assert_eq!(st.selected(), Some(4));
    assert_eq!(st.offset, 0, "no scrolling inside the viewport");
    move_list_cursor(&mut st, 100, 10, -1);
    assert_eq!(st.selected(), Some(3));
    assert_eq!(st.offset, 0);
}

#[test]
fn scrolls_when_crossing_viewport_bottom() {
    let mut st = ListCursor::default();
    st.select(Some(8));
    st.offset = 0;
    move_list_cursor(&mut st, 100, 10, 1);
    assert_eq!(st.selected(), Some(9));
    assert_eq!(st.offset, 0);
    move_list_cursor(&mut st, 100, 10, 1);
    assert_eq!(st.selected(), Some(10));
    assert_eq!(st.offset, 1, "past the bottom the offset follows");
}

#[test]
fn scrolls_when_crossing_viewport_top() {
    let mut st = ListCursor::default();
    st.select(Some(3));
    st.offset = 5;
    move_list_cursor(&mut st, 100, 10, -1);
    assert_eq!(st.selected(), Some(2));
    assert_eq!(st.offset, 2, "above the top the offset follows");
}

#[test]
fn wraps_around_ends() {
    let mut st = ListCursor::default();
    st.select(Some(99));
    st.offset = 91;
    move_list_cursor(&mut st, 100, 10, 1);
    assert_eq!(st.selected(), Some(0));
    assert_eq!(st.offset, 0, "wrapping to the top resets the offset");
    move_list_cursor(&mut st, 100, 10, -1);
    assert_eq!(st.selected(), Some(99));
    assert_eq!(st.offset, 90, "wrapping to the bottom follows");
}

#[test]
fn empty_list_is_noop() {
    let mut st = ListCursor::default();
    move_list_cursor(&mut st, 0, 10, 1);
    assert_eq!(st.selected(), None);
}

#[test]
fn tab_cycle_wraps() {
    let mut s = SettingsState::new();
    assert_eq!(s.tab, SettingsTab::General);
    s.next_tab();
    assert_eq!(s.tab, SettingsTab::Dns, "General then Dns");
    for _ in 0..7 {
        s.next_tab();
    }
    assert_eq!(s.tab, SettingsTab::General, "eight steps come back to General");
    s.prev_tab();
    assert_eq!(s.tab, SettingsTab::About);
}

#[test]
fn dns_row_selection_cycles() {
    let mut s = SettingsState::new();
    s.set_tab(SettingsTab::Dns);
    assert_eq!(s.selected_dns_row(), Some(DnsRow::FakeIpFilterMode));
    s.on_down_key(10);
    assert_eq!(s.selected_dns_row(), Some(DnsRow::FakeIpFilter), "FakeIpFilterMode then FakeIpFilter");
    for _ in 0..7 {
        s.on_down_key(10);
    }
    assert_eq!(s.selected_dns_row(), Some(DnsRow::FakeIpFilterMode), "eight rows wrap to the first");
}

#[test]
fn tun_row_selection_cycles() {
    let mut s = SettingsState::new();
    s.set_tab(SettingsTab::Tun);
    assert_eq!(s.selected_tun_row(), Some(TunRow::TunEnabled));
    s.on_down_key(10);
    s.on_down_key(10);
    assert_eq!(s.selected_tun_row(), Some(TunRow::TunDnsMode), "TunEnabled, TunStack, TunDnsMode");
    for _ in 0..6 {
        s.on_down_key(10);
    }
    assert_eq!(s.selected_tun_row(), Some(TunRow::TunEnabled), "eight rows wrap to the first");
}

#[test]
fn general_row_selection_cycles() {
    let mut s = SettingsState::new();
    s.set_tab(SettingsTab::General);
    assert_eq!(s.selected_general_row(), Some(GeneralRow::MixedPort));
    s.on_down_key(10);
    assert_eq!(s.selected_general_row(), Some(GeneralRow::Mode));
    s.on_down_key(10);
    assert_eq!(s.selected_general_row(), Some(GeneralRow::AutoUpdateHours));
    for _ in 0..4 {
        s.on_down_key(10);
    }
    assert_eq!(s.selected_general_row(), Some(GeneralRow::MixedPort), "six rows wrap to the first");
}

#[test]
fn backups_selection_clamps_on_update() {
    let mut s = SettingsState::new();
    s.set_tab(SettingsTab::Backup);
    let item = |name: &str| BackupItem { name: name.into(), created_at: 1, size: 2 };
    s.apply_backups(vec![item("a"), item("b")]);
    assert_eq!(s.selected_backup().map(|b| b.name.as_str()), Some("a"));
    s.on_down_key(10);
    assert_eq!(s.selected_backup().map(|b| b.name.as_str()), Some("b"));
    s.apply_backups(vec![item("a")]);
    assert_eq!(s.selected_backup().map(|b| b.name.as_str()), Some("a"), "index pulled in");
}

#[test]
fn tui_update_groups_selects_current_node_by_default() {
    let mut state = ProxyState::new();
    state.update_groups(Groups { proxies: vec![proxy_group("group", Some("node-b"), vec!["node-b", "node-a"])] });
    assert_eq!(state.groups.len(), 1);
    assert_eq!(shown(&state, 0), vec!["node-a", "node-b"]);
    assert_eq!(state.group_list_state.selected, Some(0));
    assert_eq!(state.selected_node(), Some(("group", "node-b")));
}

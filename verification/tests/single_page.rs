use clard::app::checker::{AnalysisResult, IPInfo, UnlockStatus};
use clard::app::connections::ConnectionsState;
use clard::app::nettest::{NetTestState, NetTestTab, SortOrder, TestStatus};
use clard::app::preview::{detect_distribution, detect_kernel_version, detect_system_info, PreviewState};
use clard::app::proxy::{ProxyFocus, ProxyState};
use clard::app::rules::RulesState;
use clard::app::state::{MenuItem, MenuState};
use clard::canvas::{menu_copy, sort_order_name};
use clard::ipc::backend::{connection_path, get_http_url, group_path, proxies_path, BackendBuilder, BuildError, Protocol};
use clard::ipc::models::{BackendVersion, Connections, Groups, Proxy, ProxyType, Rule, Traffic};
use clard::ipc::websocket::get_websocket_url;

fn proxy_group(name: &str, now: Option<&str>, all: Vec<&str>) -> Proxy {
    Proxy {
        all: Some(all.into_iter().map(ToString::to_string).collect()),
        now: now.map(ToString::to_string),
        name: name.to_string(),
        alive: true,
        history: Vec::new(),
        extra: Vec::new(),
        proxy_type: ProxyType::Selector,
        udp: true,
        uot: false,
        xudp: false,
        tfo: false,
        mptcp: false,
        smux: false,
        expected_status: None,
        fixed: None,
        hidden: None,
        icon: None,
        test_url: None,
        id: None,
        provider_name: None,
        interface: String::new(),
        dialer_proxy: String::new(),
        routing_mark: 0,
    }
}

fn plain_proxy(name: &str) -> Proxy {
    let mut p = proxy_group(name, None, vec![]);
    p.all = None;
    p.proxy_type = ProxyType::Shadowsocks;
    p
}

fn names(p: &Proxy) -> Vec<&str> {
    p.all.as_ref().map(|v| v.iter().map(String::as_str).collect()).unwrap_or_default()
}

#[test]
fn finish_testing_only_after_every_node_has_result() {
    let mut state = NetTestState::new();
    state.set_nodes(vec!["a".to_string(), "b".to_string()]);

    assert!(state.start_testing_all());
    assert!(state.is_testing);
    assert_eq!(state.nodes[0].status, TestStatus::Testing);
    assert_eq!(state.nodes[1].status, TestStatus::Testing);

    state.update_node_latency("a", 120);
    assert!(!state.finish_testing_if_complete());
    assert!(state.is_testing);

    state.update_node_error("b", "failed".to_string());
    assert!(state.finish_testing_if_complete());
    assert!(!state.is_testing);
}

#[test]
fn nettest_sort_orders_cycle_and_keep_ties_in_place() {
    let mut state = NetTestState::new();
    assert_eq!(state.tab, NetTestTab::Analysis);
    assert!(!state.start_testing_all(), "no nodes, no test");
    state.set_nodes(vec!["b".into(), "a".into(), "c".into(), "d".into()]);
    assert_eq!(state.list_state.selected, Some(0));
    state.update_node_latency("b", 300);
    state.update_node_latency("a", 100);
    state.update_node_latency("c", 300);
    state.sort();
    assert_eq!(state.sort_order, SortOrder::LatencyAsc);
    let order: Vec<&str> = state.nodes.iter().map(|n| n.name.as_str()).collect();
    assert_eq!(order, vec!["a", "b", "c", "d"]);
    state.sort();
    assert_eq!(state.sort_order, SortOrder::LatencyDesc);
    let order: Vec<&str> = state.nodes.iter().map(|n| n.name.as_str()).collect();
    assert_eq!(order, vec!["d", "b", "c", "a"], "untested last under asc, first under desc; ties stay");
    state.sort();
    let order: Vec<&str> = state.nodes.iter().map(|n| n.name.as_str()).collect();
    assert_eq!(order, vec!["a", "b", "c", "d"]);
    state.sort();
    let order: Vec<&str> = state.nodes.iter().map(|n| n.name.as_str()).collect();
    assert_eq!(order, vec!["d", "c", "b", "a"]);
    state.sort();
    assert_eq!(state.sort_order, SortOrder::LatencyAsc);
    assert_eq!(sort_order_name(&SortOrder::NameDesc), "name desc");
    assert_eq!(sort_order_name(&SortOrder::Unsorted), "unsorted");
}

#[test]
fn nettest_history_keeps_last_twenty_and_rows_wrap() {
    let mut state = NetTestState::new();
    state.set_nodes(vec!["a".into(), "b".into()]);
    for d in 0..25u16 {
        state.update_node_latency("a", d);
    }
    assert_eq!(state.nodes[0].history.len(), 20);
    assert_eq!(state.nodes[0].history[0], 5);
    assert_eq!(state.nodes[0].status, TestStatus::Done(24));
    state.update_node_latency("zzz", 1);
    assert_eq!(state.nodes[1].status, TestStatus::Pending);
    state.on_up_key();
    assert_eq!(state.list_state.selected, Some(1));
    state.on_down_key();
    assert_eq!(state.list_state.selected, Some(0));
}

#[test]
fn proxy_update_groups_selects_current_node_by_default() {
    let mut state = ProxyState::new();
    state.update_groups(Groups {
        proxies: vec![proxy_group("group", Some("node-b"), vec!["node-a", "node-b"])],
    });
    assert_eq!(state.selected_node(), Some(("group", "node-b")));

    let mut tui_state = clard::tui::app::proxy::ProxyState::new();
    tui_state.update_groups(Groups {
        proxies: vec![proxy_group("group", Some("node-b"), vec!["node-a", "node-b"])],
    });
    assert_eq!(tui_state.selected_node(), Some(("group", "node-b")));
}

#[test]
fn proxy_selected_node_tracks_proxy_focus_selection() {
    let mut state = ProxyState::new();
    state.update_groups(Groups {
        proxies: vec![proxy_group("group", None, vec!["node-a", "node-b"])],
    });
    state.on_right_key();
    state.on_down_key();
    assert_eq!(state.selected_node(), Some(("group", "node-b")));

    let mut tui_state = clard::tui::app::proxy::ProxyState::new();
    tui_state.update_groups(Groups {
        proxies: vec![proxy_group("group", None, vec!["node-a", "node-b"])],
    });
    tui_state.on_right_key();
    tui_state.on_down_key(10);
    assert_eq!(tui_state.selected_node(), Some(("group", "node-b")));
}

#[test]
fn proxy_groups_are_filtered_sorted_and_selection_survives_refresh() {
    let mut state = ProxyState::new();
    state.update_groups(Groups {
        proxies: vec![
            proxy_group("beta", None, vec!["Zed", "alpha", "Mid"]),
            plain_proxy("DIRECT"),
            proxy_group("Alpha", Some("x"), vec!["y", "x"]),
            proxy_group("empty", None, vec![]),
        ],
    });
    assert_eq!(state.groups.len(), 2);
    assert_eq!(state.groups[0].name, "Alpha");
    assert_eq!(names(&state.groups[1]), vec!["alpha", "Mid", "Zed"]);
    assert_eq!(state.selected_node(), Some(("Alpha", "x")));
    assert_eq!(state.focus, ProxyFocus::Groups);
    state.on_down_key();
    assert_eq!(state.selected_node(), Some(("beta", "alpha")));
    state.on_right_key();
    state.on_up_key();
    assert_eq!(state.selected_node(), Some(("beta", "Zed")));
    state.update_groups(Groups {
        proxies: vec![
            proxy_group("Alpha", Some("x"), vec!["y", "x"]),
            proxy_group("beta", None, vec!["Zed", "alpha"]),
        ],
    });
    assert_eq!(state.selected_node(), Some(("beta", "Zed")), "group and member kept by name");
    state.update_groups(Groups { proxies: vec![plain_proxy("DIRECT")] });
    assert_eq!(state.selected_node(), None);
    assert_eq!(state.group_list_state.selected, None);
    state.on_left_key();
    assert_eq!(state.focus, ProxyFocus::Groups);
}

#[test]
fn menu_walks_five_pages_and_quits_on_q() {
    let mut menu = MenuState::init();
    assert_eq!(menu.current(), MenuItem::Preview);
    menu.prev();
    assert_eq!(menu.current(), MenuItem::Preview);
    for _ in 0..10 {
        menu.next();
    }
    assert_eq!(menu.current(), MenuItem::NetTest);
    menu.prev();
    assert_eq!(menu.current(), MenuItem::Rules);
    menu.first();
    assert_eq!(menu.current().to_str(), "Preview");
    menu.last();
    assert_eq!(menu.current().to_str(), "NetTest");
    assert!(menu.on_char('q'));
    assert!(!menu.on_char('x'));
    assert_eq!(MenuItem::first(), MenuItem::ALL[0]);
    assert_eq!(MenuItem::last(), MenuItem::ALL[4]);
    assert_eq!(menu_copy(MenuItem::Proxy), Some(("Proxy", "代理组与节点选择", "Enter: open · t: node delay")));
    assert_eq!(menu_copy(MenuItem::Rules), None);
}

#[test]
fn preview_keeps_sixty_traffic_samples() {
    let info = detect_system_info(Some("NAME=Arch\nPRETTY_NAME=\"Arch Linux\"\n"), Some("6.9.1-arch1\n"), "0.1.0");
    assert_eq!(info.distribution, "Arch Linux");
    assert_eq!(info.kernel_version, "6.9.1-arch1");
    assert_eq!(info.verge_version, "0.1.0");
    let mut state = PreviewState::new(info);
    for i in 0..70u64 {
        state.update_traffic(Traffic { up: i, down: 2 * i });
    }
    assert_eq!(state.traffic_history.len(), 60);
    assert_eq!(state.traffic_history[0], Traffic { up: 10, down: 20 });
    assert_eq!(state.current_traffic, Some(Traffic { up: 69, down: 138 }));
    state.update_version(BackendVersion { meta: true, version: "v1.19".into() });
    assert_eq!(state.version.as_ref().map(|v| v.version.as_str()), Some("v1.19"));
    state.update_ip_info(Some(IPInfo { ip: "1.1.1.1".into(), region: "US".into() }), None);
    assert!(state.proxy_ip.is_none());
    state.update_connections(Connections { download_total: 1, upload_total: 2, memory: 3, connections: None });
    assert!(state.connections.is_some());
}

#[test]
fn distribution_falls_back_to_name_then_unknown() {
    assert_eq!(detect_distribution(Some("NAME=\"Fedora\"\nID=fedora\n")), "Fedora");
    assert_eq!(detect_distribution(Some("ID=x\n")), "Unknown");
    assert_eq!(detect_distribution(None), "Unknown");
    assert_eq!(detect_distribution(Some(" NAME=Indented\n")), "Unknown", "lines are not trimmed");
    assert_eq!(detect_kernel_version(None), "Unknown");
}

#[test]
fn connections_and_rules_refit_their_cursor() {
    let mut conns = ConnectionsState::new();
    conns.update_connections(Connections { download_total: 5, upload_total: 6, memory: 7, connections: Some(Vec::new()) });
    assert_eq!(conns.list_state.selected, None);
    assert_eq!(conns.connections_data.as_ref().map(|d| d.upload_total), Some(6));
    conns.on_down_key();
    assert_eq!(conns.list_state.selected, None);

    let mut rules = RulesState::new();
    let rule = |i: usize| Rule {
        index: i,
        rule_type: "DOMAIN".into(),
        payload: "example.com".into(),
        proxy: "DIRECT".into(),
        size: -1,
        extra: None,
    };
    rules.update_rules(vec![rule(0), rule(1), rule(2)]);
    assert_eq!(rules.list_state.selected, Some(0));
    rules.on_up_key();
    assert_eq!(rules.list_state.selected, Some(2));
    rules.on_down_key();
    assert_eq!(rules.list_state.selected, Some(0));
    rules.update_rules(Vec::new());
    assert_eq!(rules.list_state.selected, None);
}

#[test]
fn build_backend() {
    let b = BackendBuilder::default().set_unix_socket("/tmp/verge/verge-mihomo.sock");
    assert_eq!(b.build(false), Ok(Protocol::UDS("/tmp/verge/verge-mihomo.sock".into())));
    let t = BackendBuilder::default().set_tcp_addr("127.0.0.1:9090");
    assert_eq!(t.build(true), Ok(Protocol::TCP("127.0.0.1:9090".into())));
    let bad = BackendBuilder::default().set_tcp_addr("not an address");
    assert_eq!(bad.build(false), Err(BuildError::InvalidAddress));
    assert_eq!(BackendBuilder::default().build(true), Err(BuildError::NoBackend));
}

#[test]
fn backend_prefers_the_unix_socket_and_builds_paths() {
    let b = BackendBuilder::default().set_tcp_addr("127.0.0.1:9090").set_unix_socket("/tmp/mihomo.sock");
    assert_eq!(b.protocol(), Ok(Protocol::UDS("/tmp/mihomo.sock".into())));
    let b = BackendBuilder::default().set_tcp_addr("127.0.0.1:9090");
    assert_eq!(b.protocol(), Ok(Protocol::TCP("127.0.0.1:9090".into())));
    assert_eq!(BackendBuilder::default().protocol(), Err(BuildError::NoBackend));

    assert_eq!(get_http_url(Some(("127.0.0.1", 9090)), "//version"), "http://127.0.0.1:9090/version");
    assert_eq!(get_http_url(None, "/connections"), "http://localhost/connections");
    assert_eq!(get_websocket_url("/traffic"), "ws://localhost/traffic");
    assert_eq!(get_websocket_url("logs"), "ws://localhost/logs");
    assert_eq!(group_path("a b/c"), "/group/a%20b%2Fc");
    assert_eq!(proxies_path("🔰 选择"), "/proxies/%F0%9F%94%B0%20%E9%80%89%E6%8B%A9");
    assert_eq!(proxies_path("Az09-._~"), "/proxies/Az09-._~");
    assert_eq!(connection_path("abc"), "/connections/abc");
}

#[test]
fn analysis_starts_pending() {
    let r = AnalysisResult::default();
    assert!(r.direct_ip.is_none());
    assert_eq!(r.netflix_status, UnlockStatus::Testing);
    assert_eq!(r.bilibili_status, UnlockStatus::Testing);
}

#[test]
fn clearing_a_group_pin() {
    let (method, path) = clard::ipc::backend::unfixed_proxy_request("自动 选择");
    assert_eq!(method, clard::ipc::backend::HttpMethod::Delete);
    assert_eq!(path, "/proxies/%E8%87%AA%E5%8A%A8%20%E9%80%89%E6%8B%A9");
    assert_eq!(clard::ipc::backend::unfixed_proxy_error("Auto", Ok("not fixed".into())), "not fixed");
    assert_eq!(
        clard::ipc::backend::unfixed_proxy_error("Auto", Err("EOF".into())),
        "unfixed group [Auto] failed: EOF"
    );
    assert_eq!(clard::ipc::backend::clear_selection_message("Auto", Ok(())), "cleared selection: Auto");
    assert_eq!(clard::ipc::backend::clear_selection_message("Auto", Err("x".into())), "Clear selection error: x");
}

#[test]
fn single_page_letter_keys_move_like_arrows() {
    let mut app = clard::app::window::APP::init();
    assert!(app.on_char('j').is_empty());
    assert_eq!(app.menusate.current(), MenuItem::Proxy);
    assert!(app.on_char('k').is_empty());
    assert_eq!(app.menusate.current(), MenuItem::Preview);
    let effects = app.on_char('1');
    assert_eq!(effects, vec![clard::app::window::Effect::FetchGroups]);
    app.apply_groups(Groups {
        proxies: vec![proxy_group("A", Some("a2"), vec!["a1", "a2"]), proxy_group("B", None, vec!["b1"])],
    });
    match &app.current_page {
        clard::app::window::WindowState::Proxy(s) => assert_eq!(s.group_list_state.selected, Some(0)),
        _ => panic!("the proxy page is open"),
    }
    assert!(app.on_char('j').is_empty());
    match &app.current_page {
        clard::app::window::WindowState::Proxy(s) => assert_eq!(s.group_list_state.selected, Some(1)),
        _ => panic!("the proxy page is open"),
    }
    assert!(app.on_char('l').is_empty());
    assert!(app.on_char('h').is_empty());
    match &app.current_page {
        clard::app::window::WindowState::Proxy(s) => assert_eq!(s.focus, ProxyFocus::Groups),
        _ => panic!("the proxy page is open"),
    }
    app.on_up_key();
    match &app.current_page {
        clard::app::window::WindowState::Proxy(s) => assert_eq!(s.group_list_state.selected, Some(0)),
        _ => panic!("the proxy page is open"),
    }
    let effects = app.on_char('2');
    assert_eq!(
        effects,
        vec![clard::app::window::Effect::FetchConnections, clard::app::window::Effect::SubscribeTraffic]
    );
    assert_eq!(app.on_char('2'), vec![clard::app::window::Effect::FetchConnections]);
    let effects = app.on_char('3');
    assert_eq!(
        effects,
        vec![clard::app::window::Effect::FetchNettestNodes, clard::app::window::Effect::TriggerAnalysis]
    );
    match &app.current_page {
        clard::app::window::WindowState::NetTest(s) => {
            assert!(s.analysis_testing && s.nodes.is_empty() && s.tab == NetTestTab::Analysis)
        }
        _ => panic!("the network test page is open"),
    }
}

use clard::app::checker::{
    bilibili_status, netflix_original_verdict, netflix_title_verdict, spotify_status, youtube_page_is_readable,
    youtube_status, UnlockStatus,
};
use clard::app::nettest::{NodeTestInfo, TestStatus};
use clard::canvas::{
    connection_totals, format_average, latency_metrics, menu_card_heading, menu_marker, LatencyMetrics,
    Painter as MenuPainter,
};
use clard::tui::app::connections::ConnectionsState;
use clard::tui::app::page::Page;
use clard::tui::app::settings::{LogsRow, TunRow};
use clard::tui::canvas::{
    connection_metrics, core_sha_text, logs_row_line, logs_row_value, padded, page_help, tun_row_line, tun_row_value,
    Painter,
};
use clard::app::state::MenuItem;
use clard::app::window::{WindowState, APP};
use clard::commands::{ClardRsCmd, Cli, TestCmd};
use clard::tui::models::{Connections, HelperConfig, RuleBehavior, Settings, Traffic};
use clard::tui::canvas::Tone;
use clard::tui::app::settings::{GeneralRow, SettingsState};
use clard::app::checker::IPInfo;

fn settings() -> Settings {
    Settings {
        language: "en".into(),
        theme: "dark".into(),
        test_url: String::new(),
        mixed_port: 7890,
        auto_update_interval_hours: 6,
        tun_enabled: true,
        tun_stack: "gvisor".into(),
        tun_dns_mode: String::new(),
        dns_hijack: vec!["any:53".into(), "tcp://any:53".into()],
        route_exclude_address: Vec::new(),
        exclude_uid: Vec::new(),
        exclude_interface: Vec::new(),
        exclude_dst_port: Vec::new(),
        strict_route: false,
        auto_redirect: true,
    }
}

fn node(name: &str, status: TestStatus) -> NodeTestInfo {
    NodeTestInfo { name: name.into(), status, history: Vec::new() }
}

#[test]
fn netflix_original_title_blocks_only_on_forbidden() {
    assert_eq!(netflix_original_verdict(403), Some(UnlockStatus::Blocked("403 Forbidden".into())));
    assert_eq!(netflix_original_verdict(200), None);
    assert_eq!(netflix_original_verdict(404), None);
}

#[test]
fn netflix_licensed_title_decides_the_rest() {
    assert_eq!(netflix_title_verdict(None), UnlockStatus::OriginalsOnly);
    assert_eq!(netflix_title_verdict(Some((404, "404 Not Found"))), UnlockStatus::OriginalsOnly);
    assert_eq!(netflix_title_verdict(Some((200, "200 OK"))), UnlockStatus::Unlocked("Yes".into()));
    assert_eq!(
        netflix_title_verdict(Some((500, "500 Internal Server Error"))),
        UnlockStatus::Error("Status 500 Internal Server Error".into())
    );
}

#[test]
fn youtube_region_is_read_after_the_marker() {
    let page = r#"<script>ytcfg.set({"GL":"US","HL":"en"})</script>"#;
    assert!(youtube_page_is_readable(page));
    assert_eq!(youtube_status(page), UnlockStatus::Unlocked("US".into()));
    let twice = r#"{"GL":"JP"} {"GL":"DE"}"#;
    assert_eq!(youtube_status(twice), UnlockStatus::Unlocked("JP".into()));
}

#[test]
fn youtube_refusal_and_unknown_region() {
    let refused = "Sorry, Premium is not available in your country. \"GL\":\"CN\"";
    assert_eq!(youtube_status(refused), UnlockStatus::Blocked("Premium Not Available".into()));
    assert_eq!(youtube_status("<html></html>"), UnlockStatus::Blocked("Unknown Region".into()));
    assert_eq!(youtube_status(""), UnlockStatus::Blocked("Unknown Region".into()));
}

#[test]
fn youtube_page_cut_inside_a_character_is_not_readable() {
    assert!(!youtube_page_is_readable(r#"{"GL":"U"#));
    assert!(!youtube_page_is_readable("{\"GL\":\"€"));
    assert!(youtube_page_is_readable("{\"GL\":\"é"));
    assert_eq!(youtube_status("{\"GL\":\"é"), UnlockStatus::Unlocked("é".into()));
}

#[test]
fn spotify_and_bilibili_verdicts() {
    assert_eq!(
        spotify_status("<p>Spotify is currently not available in your country.</p>"),
        UnlockStatus::Blocked("Not Available".into())
    );
    assert_eq!(spotify_status("<html>welcome</html>"), UnlockStatus::Unlocked("Yes".into()));
    assert_eq!(bilibili_status(r#"{"code":0,"message":"success"}"#), UnlockStatus::Unlocked("Mainland".into()));
    assert_eq!(bilibili_status(r#"{"code":-10403,"message":"area"}"#), UnlockStatus::Blocked("Restricted".into()));
}

#[test]
fn tun_rows_show_settings_or_defaults() {
    let s = settings();
    assert_eq!(tun_row_value(TunRow::TunEnabled, Some(&s)), "● on");
    assert_eq!(tun_row_value(TunRow::TunEnabled, None), "○ off");
    assert_eq!(tun_row_value(TunRow::TunStack, Some(&s)), "[gvisor]");
    assert_eq!(tun_row_value(TunRow::TunStack, None), "[system]");
    assert_eq!(tun_row_value(TunRow::TunDnsMode, Some(&s)), "[fake-ip]");
    assert_eq!(tun_row_value(TunRow::DnsHijack, Some(&s)), "any:53,tcp://any:53");
    assert_eq!(tun_row_value(TunRow::DnsHijack, None), "default (any:53,tcp://any:53)");
    assert_eq!(
        tun_row_value(TunRow::RouteExclude, Some(&s)),
        "default private nets (10/8,172.16/12,192.168/16,…)"
    );
    assert_eq!(tun_row_value(TunRow::StrictRoute, Some(&s)), "○ off risk: crash residuals = full outage");
    assert_eq!(tun_row_value(TunRow::AutoRedirect, Some(&s)), "● on risk: nft/iptables residuals");
    assert_eq!(tun_row_value(TunRow::RecoverDirect, None), "run cleanup-tun");
}

#[test]
fn tun_row_line_pads_the_label() {
    let s = settings();
    assert_eq!(tun_row_line(TunRow::TunStack, Some(&s)), format!("{:<22}{}", "TUN stack", "[gvisor]"));
    assert_eq!(padded("abc", 5), "abc  ");
    assert_eq!(padded("abcdef", 3), "abcdef");
}

#[test]
fn logs_rows_show_config_or_defaults() {
    let c = HelperConfig {
        log_level: "debug".into(),
        app_log_max_bytes: 3 * 1024 * 1024 + 5,
        app_log_keep: 7,
        audit_keep: 9,
        audit_dual_write: false,
    };
    assert_eq!(logs_row_value(LogsRow::CoreLogLevel, Some(&c)), "debug");
    assert_eq!(logs_row_value(LogsRow::AppLogMaxBytes, Some(&c)), "3");
    assert_eq!(logs_row_value(LogsRow::AppLogKeep, Some(&c)), "7");
    assert_eq!(logs_row_value(LogsRow::AuditKeep, Some(&c)), "9");
    assert_eq!(logs_row_value(LogsRow::AuditDualWrite, Some(&c)), "off");
    assert_eq!(logs_row_value(LogsRow::CoreLogLevel, None), "info");
    assert_eq!(logs_row_value(LogsRow::AppLogMaxBytes, None), "1");
    assert_eq!(logs_row_value(LogsRow::AuditDualWrite, None), "on");
    assert_eq!(logs_row_line(LogsRow::AuditKeep, None), format!("{:<20}{}", "Audit keep", "5"));
}

#[test]
fn core_checksum_is_cut_after_sixteen_bytes() {
    assert_eq!(core_sha_text(None), "-");
    assert_eq!(core_sha_text(Some("abcdef")), "abcdef");
    assert_eq!(core_sha_text(Some("0123456789abcdef")), "0123456789abcdef");
    assert_eq!(core_sha_text(Some("0123456789abcdef0123")), "0123456789abcdef…");
}

#[test]
fn latency_summary_counts_and_averages() {
    let nodes = vec![
        node("a", TestStatus::Done(120)),
        node("b", TestStatus::Testing),
        node("c", TestStatus::Done(80)),
        node("d", TestStatus::Timeout),
        node("e", TestStatus::Done(101)),
        node("f", TestStatus::Pending),
    ];
    let m = latency_metrics(&nodes);
    assert_eq!(
        m,
        LatencyMetrics { total: 6, done: 3, testing: 1, fastest: Some(80), average: Some(100) }
    );
    assert_eq!(format_average(m.average), "100 ms");
    let none = latency_metrics(&vec![node("x", TestStatus::Error("e".into()))]);
    assert_eq!(none, LatencyMetrics { total: 1, done: 0, testing: 0, fastest: None, average: None });
    assert_eq!(format_average(None), "-");
}

#[test]
fn connection_summary_texts() {
    let mut state = ConnectionsState::new();
    let empty = connection_metrics(&state);
    assert_eq!(empty.active, "0");
    assert_eq!(empty.upload_rate, "-");
    assert_eq!(empty.upload_caption, "total -  ");
    assert_eq!(empty.memory, "-");
    state.update_connections(Connections { download_total: 2048, upload_total: 1536, memory: 1000, connections: None });
    state.update_traffic(Traffic { up: 1024, down: 0 });
    let m = connection_metrics(&state);
    assert_eq!(m.upload_rate, "1 KB/s");
    assert_eq!(m.download_rate, "0 B/s");
    assert!(m.upload_caption.starts_with("total 1.5 KB  "));
    assert!(m.download_caption.starts_with("total 2 KB  "));
    assert_eq!(m.memory, "1 KB");
    let totals = connection_totals(&state);
    assert_eq!(totals, ("0".to_string(), "1.5 KB".to_string(), "2 KB".to_string(), "1 KB".to_string()));
}

#[test]
fn help_lines_follow_the_page() {
    assert_eq!(page_help(Page::Home)[0], "Home");
    assert_eq!(page_help(Page::Settings).len(), 7);
    assert_eq!(page_help(Page::Rules)[3], "In providers view u updates the selected provider.");
}

#[test]
fn menu_cards_and_small_screens() {
    assert_eq!(menu_card_heading(0, "Proxy"), "1  Proxy");
    assert_eq!(menu_card_heading(2, "Net Test"), "3  Net Test");
    assert_eq!(menu_marker(true), "▶");
    assert_eq!(menu_marker(false), " ");
    assert!(Painter.too_small(79, 40));
    assert!(Painter.too_small(120, 23));
    assert!(!Painter.too_small(80, 24));
    assert!(!MenuPainter::default().too_small(200, 50));
}

fn member_group(name: &str, all: Vec<&str>) -> clard::tui::models::Proxy {
    clard::tui::models::Proxy {
        all: Some(all.into_iter().map(ToString::to_string).collect()),
        now: None,
        name: name.to_string(),
        alive: true,
        history: Vec::new(),
        extra: Vec::new(),
        proxy_type: clard::tui::models::ProxyType::Selector,
        udp: false,
        uot: false,
        xudp: false,
        tfo: false,
        mptcp: false,
        smux: false,
        expected_status: None,
        fixed: None,
        hidden: None,
        icon: None,
        test_url: None,
        id: None,
        provider_name: None,
        interface: String::new(),
        dialer_proxy: String::new(),
        routing_mark: 0,
    }
}

#[test]
fn nettest_nodes_are_unique_and_sorted() {
    let mut plain = member_group("plain", vec![]);
    plain.all = None;
    let groups = clard::tui::models::Groups {
        proxies: vec![
            member_group("A", vec!["tokyo", "berlin", "Zurich"]),
            plain,
            member_group("B", vec!["berlin", "amsterdam", "tokyo"]),
        ],
    };
    assert_eq!(
        clard::app::nettest::nettest_node_names(&groups),
        vec!["Zurich".to_string(), "amsterdam".to_string(), "berlin".to_string(), "tokyo".to_string()]
    );
    let empty = clard::tui::models::Groups { proxies: Vec::new() };
    assert!(clard::app::nettest::nettest_node_names(&empty).is_empty());
}

#[test]
fn single_page_client_takes_answers_for_the_shown_page() {
    let mut app = APP::init();
    app.node_tested("hk-01", 87);
    assert_eq!(app.message.as_deref(), Some("Node 'hk-01' delay: 87ms"));
    app.apply_groups(clard::tui::models::Groups { proxies: vec![member_group("G", vec!["a"])] });
    assert!(matches!(app.current_page, WindowState::Memu));
    app.switch_page(MenuItem::NetTest);
    app.apply_nettest_nodes(vec!["a".into(), "b".into()]);
    app.apply_node_result("a", Ok(40));
    app.apply_node_result("b", Err("timeout".into()));
    match &app.current_page {
        WindowState::NetTest(state) => {
            assert_eq!(state.nodes.len(), 2);
            assert!(matches!(state.nodes[0].status, TestStatus::Done(40)));
        }
        _ => panic!("expected the network test page"),
    }
    app.apply_analysis(clard::app::checker::AnalysisResult::default());
    match &app.current_page {
        WindowState::NetTest(state) => assert!(!state.analysis_testing),
        _ => panic!("expected the network test page"),
    }
    app.show_error("boom".into());
    assert_eq!(app.message.as_deref(), Some("boom"));
}

#[test]
fn command_line_tui_flag_wins() {
    let test = Cli { cmd: Some(ClardRsCmd::Test(TestCmd { name: Some("x".into()) })), verbose: false, tui: false };
    assert_eq!(test.clone().subcommand(), Some(ClardRsCmd::Test(TestCmd { name: Some("x".into()) })));
    let forced = Cli { tui: true, ..test };
    assert_eq!(forced.subcommand(), None);
}

#[test]
fn overview_line_of_the_single_page_client() {
    let mut app = APP::init();
    assert_eq!(clard::canvas::header_summary(&app.current_page), "3 workspaces · keyboard-first · async actions");
    assert_eq!(clard::canvas::page_name(&app.current_page), "Menu");
    assert_eq!(clard::canvas::selected_tab_index(&app), None);
    app.menusate.next();
    assert_eq!(clard::canvas::selected_tab_index(&app), Some(0));
    assert_eq!(clard::canvas::footer_keys(&app.current_page)[2], ("1-3", "jump"));

    let mut proxy = clard::app::proxy::ProxyState::new();
    proxy.update_groups(clard::tui::models::Groups {
        proxies: vec![member_group("A", vec!["x", "y"]), member_group("B", vec!["z"])],
    });
    let page = WindowState::Proxy(proxy);
    assert_eq!(clard::canvas::header_summary(&page), "2 groups · 3 selectable nodes");
    assert_eq!(clard::canvas::footer_keys(&page)[1], ("Tab/←→", "nodes focus"));
    assert_eq!(clard::canvas::page_name(&page), "Proxy");

    let mut conns = ConnectionsState::new();
    assert_eq!(clard::canvas::header_summary(&WindowState::Connects(ConnectionsState::new())), "loading connections");
    conns.update_connections(Connections { download_total: 2048, upload_total: 1536, memory: 1000, connections: None });
    assert_eq!(
        clard::canvas::header_summary(&WindowState::Connects(conns)),
        "0 active · up 1.5 KB · down 2 KB · mem 1 KB"
    );

    let mut test = clard::app::nettest::NetTestState::new();
    test.set_nodes(vec!["a".into(), "b".into(), "c".into()]);
    test.update_node_latency("b", 120);
    test.analysis_testing = true;
    let page = WindowState::NetTest(test);
    assert_eq!(clard::canvas::header_summary(&page), "3 nodes · 1 tested · running");
    assert_eq!(clard::canvas::footer_keys(&page).len(), 4);
    assert_eq!(clard::canvas::page_name(&page), "Net Test");
}

#[test]
fn status_line_of_the_helper_client() {
    let mut client = clard::tui::client::Client::init();
    assert_eq!(clard::tui::canvas::header_summary(&client), "core unknown · helper -");
    client.home.core_state = Some("running".into());
    client.home.helper_version = Some("0.4.1".into());
    assert_eq!(clard::tui::canvas::header_summary(&client), "core running · helper 0.4.1");
    let keys = clard::tui::canvas::footer_keys(&client);
    assert_eq!(keys, vec![("1-7", "page"), ("2", "profiles"), ("?", "help"), ("Esc", "home"), ("q", "quit")]);
    client.switch_page(Page::Rules);
    assert_eq!(clard::tui::canvas::header_summary(&client), "0 rules · 0 providers");
    assert_eq!(clard::tui::canvas::footer_keys(&client).len(), 7);
    client.switch_page(Page::Logs);
    assert_eq!(clard::tui::canvas::header_summary(&client), "app · core · audit");
    client.switch_page(Page::Proxies);
    assert_eq!(clard::tui::canvas::header_summary(&client), "0 groups · 0 selectable nodes");
    assert_eq!(clard::tui::canvas::footer_keys(&client)[1], ("Tab/←→", "nodes focus"));
    client.switch_page(Page::Connections);
    assert_eq!(clard::tui::canvas::header_summary(&client), "loading connections");
    assert_eq!(clard::tui::canvas::footer_keys(&client)[4], ("c", "unit"));
}

#[test]
fn colours_follow_delays_and_levels() {
    let t = clard::tui::canvas::delay_tone;
    assert_eq!(t(Some(0)), Tone::Success);
    assert_eq!(t(Some(179)), Tone::Success);
    assert_eq!(t(Some(180)), Tone::Warning);
    assert_eq!(t(Some(499)), Tone::Warning);
    assert_eq!(t(Some(500)), Tone::Error);
    assert_eq!(t(None), Tone::Muted);
    let l = clard::tui::canvas::log_level_tone;
    assert_eq!(l("ERROR"), Tone::Error);
    assert_eq!(l("err"), Tone::Error);
    assert_eq!(l("WARN"), Tone::Warning);
    assert_eq!(l("Warning"), Tone::Warning);
    assert_eq!(l("DEBUG"), Tone::Muted);
    assert_eq!(l("info"), Tone::Info);
    assert_eq!(l(""), Tone::Info);
}

#[test]
fn general_and_core_tabs_show_settings() {
    let g = clard::tui::canvas::general_row_value;
    assert_eq!(g(GeneralRow::MixedPort, None).as_deref(), Some("-"));
    assert_eq!(g(GeneralRow::Language, None).as_deref(), Some("en"));
    assert_eq!(g(GeneralRow::Theme, None).as_deref(), Some("dark"));
    assert_eq!(g(GeneralRow::TestUrl, None).as_deref(), Some("default"));
    assert_eq!(g(GeneralRow::Mode, None), None);
    let s = settings();
    assert_eq!(g(GeneralRow::MixedPort, Some(&s)).as_deref(), Some("7890"));
    assert_eq!(g(GeneralRow::AutoUpdateHours, Some(&s)).as_deref(), Some("6"));
    assert_eq!(g(GeneralRow::TestUrl, Some(&s)).as_deref(), Some("default"));
    let mut with_url = settings();
    with_url.test_url = "http://cp.cloudflare.com".into();
    assert_eq!(g(GeneralRow::TestUrl, Some(&with_url)).as_deref(), Some("http://cp.cloudflare.com"));

    let mut state = SettingsState::new();
    let c = clard::tui::canvas::core_summary(&state);
    assert_eq!((c.state.as_str(), c.running, c.pid.as_str(), c.version.as_str(), c.sha.as_str()), ("unknown", false, "-", "-", "-"));
    state.core_state = Some("running".into());
    state.core_pid = Some(4242);
    state.core_version = Some("v1.19.2".into());
    state.core_sha256 = Some("0123456789abcdef0123".into());
    let c = clard::tui::canvas::core_summary(&state);
    assert!(c.running);
    assert_eq!(c.pid, "4242");
    assert_eq!(c.version, "v1.19.2");
    assert_eq!(c.sha, "0123456789abcdef…");
    assert_eq!(clard::tui::canvas::rule_behavior_name(&RuleBehavior::IPCIDR), "IP-CIDR");
    assert_eq!(clard::tui::canvas::rule_behavior_name(&RuleBehavior::Domain), "Domain");
}

#[test]
fn analysis_lines_say_what_is_known() {
    let ip = IPInfo { ip: "1.2.3.4".into(), region: "JP".into() };
    assert_eq!(clard::canvas::ip_section(Some(&ip), true), ("READY", Tone::Success, "1.2.3.4  JP".to_string()));
    assert_eq!(clard::canvas::ip_section(None, true), ("TESTING", Tone::Info, "-".to_string()));
    assert_eq!(clard::canvas::ip_section(None, false), ("MISSING", Tone::Warning, "-".to_string()));
    let u = clard::canvas::unlock_line;
    assert_eq!(u(&UnlockStatus::Testing, true), ("TESTING", "checking".to_string(), Tone::Info));
    assert_eq!(u(&UnlockStatus::Testing, false), ("WAIT", "not tested".to_string(), Tone::Warning));
    assert_eq!(u(&UnlockStatus::Unlocked("US".into()), false), ("OK", "unlocked (US)".to_string(), Tone::Success));
    assert_eq!(u(&UnlockStatus::OriginalsOnly, true), ("PARTIAL", "originals only".to_string(), Tone::Warning));
    assert_eq!(u(&UnlockStatus::Blocked("No".into()), true), ("BLOCKED", "No".to_string(), Tone::Error));
    assert_eq!(u(&UnlockStatus::Error("timeout".into()), true), ("ERROR", "timeout".to_string(), Tone::Error));
    let t = clard::canvas::test_status_style;
    assert_eq!(t(&TestStatus::Pending), ("pending", Tone::Muted));
    assert_eq!(t(&TestStatus::Testing), ("testing", Tone::Info));
    assert_eq!(t(&TestStatus::Done(90)), ("online", Tone::Success));
    assert_eq!(t(&TestStatus::Done(700)), ("online", Tone::Error));
    assert_eq!(t(&TestStatus::Timeout), ("timeout", Tone::Error));
    assert_eq!(t(&TestStatus::Error("x".into())), ("error", Tone::Error));
}

fn delays(values: &[u16]) -> Vec<clard::tui::models::DelayHistory> {
    values
        .iter()
        .map(|d| clard::tui::models::DelayHistory { time: "2024-01-01T00:00:00Z".into(), delay: *d })
        .collect()
}

#[test]
fn member_and_group_rows() {
    let mut g = member_group("G", vec!["a", "b", "c"]);
    g.now = Some("a".into());
    g.extra = vec![
        ("b".to_string(), clard::tui::models::Extra { alive: false, history: delays(&[100, 300]) }),
        ("c".to_string(), clard::tui::models::Extra { alive: true, history: delays(&[80]) }),
    ];
    let a = clard::tui::canvas::node_row(&g, "a");
    assert_eq!((a.dot, a.state, a.current, a.delay, a.delay_text.as_str(), a.spark.as_str()), ("◉", "ACTIVE", true, None, "-", ""));
    let b = clard::tui::canvas::node_row(&g, "b");
    assert_eq!((b.dot, b.state, b.delay, b.delay_text.as_str(), b.spark.as_str()), ("○", "down", Some(300), "300 ms", "▁█"));
    let c = clard::tui::canvas::node_row(&g, "c");
    assert_eq!((c.dot, c.state, c.delay), ("●", "ready", Some(80)));
    g.alive = false;
    let d = clard::tui::canvas::node_row(&g, "zz");
    assert_eq!((d.dot, d.state), ("○", "down"));
    let row = clard::tui::canvas::group_row(&g);
    assert_eq!((row.dot, row.tone, row.kind, row.nodes, row.now.as_str()), ("○", Tone::Error, "Selector", 3, "a"));
    g.all = None;
    g.now = None;
    g.alive = true;
    let row = clard::tui::canvas::group_row(&g);
    assert_eq!((row.dot, row.tone, row.nodes, row.now.as_str()), ("●", Tone::Success, 0, "-"));
    assert_eq!(clard::tui::canvas::sparkline_history(&delays(&[10, 20, 30])), "▁▄█");
}

#[test]
fn rule_and_audit_rows() {
    let mut rule = clard::tui::models::Rule {
        index: 3,
        rule_type: "DOMAIN".into(),
        payload: "example.com".into(),
        proxy: "DIRECT".into(),
        size: -1,
        extra: None,
    };
    assert_eq!(clard::tui::canvas::rule_row(&rule), ("-".to_string(), "-", Tone::Muted));
    rule.extra = Some(clard::tui::models::RuleExtra { disabled: false, hit_count: 42, miss_count: 1 });
    assert_eq!(clard::tui::canvas::rule_row(&rule), ("42".to_string(), "enabled", Tone::Success));
    rule.extra = Some(clard::tui::models::RuleExtra { disabled: true, hit_count: 0, miss_count: 0 });
    assert_eq!(clard::tui::canvas::rule_row(&rule), ("0".to_string(), "disabled", Tone::Muted));
    assert_eq!(clard::tui::canvas::audit_result_tone("ok"), Tone::Success);
    assert_eq!(clard::tui::canvas::audit_result_tone("pending"), Tone::Muted);
    assert_eq!(clard::tui::canvas::audit_result_tone("denied"), Tone::Error);
}

#[test]
fn proxy_detail_panel() {
    let mut g = member_group("G", vec!["a", "b"]);
    g.now = Some("a".into());
    g.udp = true;
    g.fixed = Some("b".into());
    g.extra = vec![("b".to_string(), clard::tui::models::Extra { alive: true, history: delays(&[50, 150]) })];
    let d = clard::tui::canvas::proxy_detail(&g, Some("b"));
    assert_eq!((d.current.as_str(), d.selected.as_str(), d.kind, d.nodes), ("a", "b", "Selector", 2));
    assert_eq!((d.delay.as_str(), d.history.as_str()), ("150 ms", "▁█"));
    assert_eq!((d.fixed.as_str(), d.provider.as_str(), d.test_url.as_str(), d.interface.as_str()), ("b", "-", "-", "-"));
    assert_eq!(d.flags, clard::tui::canvas::proxy_flags(&g));
    let none = clard::tui::canvas::proxy_detail(&g, None);
    assert_eq!((none.selected.as_str(), none.delay.as_str(), none.history.as_str()), ("-", "-", ""));
    g.interface = "eth0".into();
    assert_eq!(clard::tui::canvas::proxy_detail(&g, Some("a")).interface, "eth0");
}

use clard::tui::app::connections::{ConnectionsSort, ConnectionsState};
use clard::tui::app::logs::{parse_text_line, LogLine, LogsState, LogsTab};
use clard::tui::app::profiles::{ProfileBusy, ProfilesState};
use clard::tui::app::rules::{RulesState, RulesTab};
use clard::tui::models::{
    AuditRecord, Connection, ConnectionMetadata, Connections, ProfileItem, ProviderType, Rule, RuleBehavior,
    RuleFormat, RuleProvider, Traffic, VehicleType,
};

fn item(uid: &str, name: &str) -> ProfileItem {
    ProfileItem {
        uid: uid.to_string(),
        name: name.to_string(),
        url: format!("https://example.com/{uid}"),
        updated_at: None,
        interval: 0,
    }
}

fn rule(index: usize, rule_type: &str, payload: &str, proxy: &str) -> Rule {
    Rule {
        index,
        rule_type: rule_type.to_string(),
        payload: payload.to_string(),
        proxy: proxy.to_string(),
        size: -1,
        extra: None,
    }
}

fn provider(name: &str, count: u32) -> RuleProvider {
    RuleProvider {
        behavior: RuleBehavior::Domain,
        format: RuleFormat::Text,
        name: name.to_string(),
        rule_count: count,
        provider_type: ProviderType::Rule,
        updated_at: String::new(),
        vehicle_type: VehicleType::HTTP,
    }
}

fn metadata() -> ConnectionMetadata {
    ConnectionMetadata {
        network: "tcp".into(),
        conn_type: "HTTP".into(),
        source_ip: String::new(),
        destination_ip: String::new(),
        source_geo_ip: None,
        destination_geo_ip: None,
        source_ip_asn: String::new(),
        destination_ip_asn: String::new(),
        source_port: String::new(),
        destination_port: String::new(),
        inbound_ip: String::new(),
        inbound_port: String::new(),
        inbound_name: String::new(),
        host: String::new(),
        process: String::new(),
        sniff_host: String::new(),
        remote_destination: String::new(),
    }
}

fn connection(id: &str, upload: u64, download: u64) -> Connection {
    Connection {
        id: id.into(),
        upload,
        download,
        start: String::new(),
        chains: Vec::new(),
        rule: String::new(),
        rule_payload: String::new(),
        metadata: metadata(),
    }
}

#[test]
fn update_list_keeps_selection_by_uid() {
    let mut state = ProfilesState::new();
    state.update_list(None, vec![item("a", "A"), item("b", "B")]);
    state.on_down_key();
    assert_eq!(state.selected().unwrap().uid, "b");
    state.update_list(None, vec![item("b", "B"), item("a", "A")]);
    assert_eq!(state.selected().unwrap().uid, "b");
}

#[test]
fn update_list_selects_first_when_previous_uid_gone() {
    let mut state = ProfilesState::new();
    state.update_list(None, vec![item("a", "A"), item("b", "B")]);
    state.on_down_key();
    assert_eq!(state.selected().unwrap().uid, "b");
    state.update_list(None, vec![item("a", "A")]);
    assert_eq!(state.selected().unwrap().uid, "a");
}

#[test]
fn empty_list_clears_selection() {
    let mut state = ProfilesState::new();
    state.update_list(None, vec![item("a", "A")]);
    assert!(state.selected().is_some());
    state.update_list(None, vec![]);
    assert!(state.selected().is_none());
    assert_eq!(state.busy, ProfileBusy::Idle);
}

#[test]
fn up_down_wrap_around() {
    let mut state = ProfilesState::new();
    state.update_list(None, vec![item("a", "A"), item("b", "B"), item("c", "C")]);
    state.on_up_key();
    assert_eq!(state.selected().unwrap().uid, "c");
    state.on_down_key();
    assert_eq!(state.selected().unwrap().uid, "a");
}

#[test]
fn filter_matches_type_payload_proxy() {
    let mut state = RulesState::new();
    state.update_rules(vec![
        rule(0, "DOMAIN", "google.com", "Proxy"),
        rule(1, "GEOIP", "CN", "DIRECT"),
        rule(2, "MATCH", "*", "Proxy"),
    ]);
    state.set_filter("google".to_string());
    assert_eq!(state.rules.len(), 1);
    assert_eq!(state.rules[0].index, 0);
    state.set_filter("geoip".to_string());
    assert_eq!(state.rules.len(), 1);
    assert_eq!(state.rules[0].index, 1);
    state.set_filter("direct".to_string());
    assert_eq!(state.rules.len(), 1);
    assert_eq!(state.rules[0].index, 1);
    state.set_filter(String::new());
    assert_eq!(state.rules.len(), 3);
}

#[test]
fn empty_filter_and_no_match_clear_selection() {
    let mut state = RulesState::new();
    state.update_rules(vec![rule(0, "DOMAIN", "a", "Proxy")]);
    assert!(state.selected_rule().is_some());
    state.set_filter("nomatch".to_string());
    assert!(state.rules.is_empty());
    assert!(state.selected_rule().is_none());
}

#[test]
fn providers_are_sorted_by_name() {
    let mut state = RulesState::new();
    state.update_providers(vec![("b".to_string(), provider("b", 2)), ("a".to_string(), provider("a", 1))]);
    assert_eq!(state.providers[0].0, "a");
    assert_eq!(state.providers[1].0, "b");
    assert_eq!(state.selected_provider_name(), Some("a".to_string()));
}

#[test]
fn tab_toggle_switches_views() {
    let mut state = RulesState::new();
    assert_eq!(state.tab, RulesTab::Rules);
    state.toggle_tab();
    assert_eq!(state.tab, RulesTab::Providers);
    state.toggle_tab();
    assert_eq!(state.tab, RulesTab::Rules);
}

#[test]
fn rule_and_provider_rows_wrap() {
    let mut state = RulesState::new();
    state.update_rules(vec![rule(0, "A", "a", "x"), rule(1, "B", "b", "y")]);
    state.on_up_key();
    assert_eq!(state.selected_rule().map(|r| r.index), Some(1));
    state.on_down_key();
    assert_eq!(state.selected_rule().map(|r| r.index), Some(0));
    state.toggle_tab();
    state.update_providers(vec![("z".into(), provider("z", 1)), ("m".into(), provider("m", 1))]);
    state.on_down_key();
    assert_eq!(state.selected_provider_name(), Some("z".to_string()));
    state.update_providers(vec![("only".into(), provider("only", 1))]);
    assert_eq!(state.selected_provider_name(), Some("only".to_string()), "past the end moves to the last");
}

#[test]
fn sorts_connections_by_download_by_default_and_switches_with_keys() {
    let data = Connections {
        download_total: 0,
        upload_total: 0,
        memory: 0,
        connections: Some(vec![connection("a", 300, 100), connection("b", 100, 300)]),
    };
    let mut state = ConnectionsState::new();
    state.update_connections(data);
    assert_eq!(state.connections[0].id, "b");
    state.sort_by_upload();
    assert_eq!(state.connections[0].id, "a");
    state.sort_by_download();
    assert_eq!(state.connections[0].id, "b");
}

#[test]
fn connections_keep_ties_and_sixty_rates() {
    let mut state = ConnectionsState::new();
    assert_eq!(state.sort, ConnectionsSort::Download);
    state.update_connections(Connections {
        download_total: 9,
        upload_total: 8,
        memory: 7,
        connections: Some(vec![connection("x", 1, 5), connection("y", 2, 5), connection("z", 3, 9)]),
    });
    let ids: Vec<&str> = state.connections.iter().map(|c| c.id.as_str()).collect();
    assert_eq!(ids, vec!["z", "x", "y"], "equal downloads keep their order");
    assert_eq!(state.list_state.selected, Some(0));
    state.on_up_key();
    assert_eq!(state.list_state.selected, Some(2));
    for i in 0..61u64 {
        state.update_traffic(Traffic { up: i, down: i + 1 });
    }
    assert_eq!(state.upload_history.len(), 60);
    assert_eq!(state.upload_history[0], 1);
    assert_eq!(state.download_history[59], 61);
    assert_eq!(state.traffic, Some(Traffic { up: 60, down: 61 }));
}

#[test]
fn log_lines_filter_and_stamp() {
    let l = parse_text_line("12:34:56 [warn] core started".to_string(), "Core");
    assert_eq!(l.ts, Some(0));
    assert_eq!(l.level, "info");
    assert_eq!(l.source, "Core");
    assert_eq!(parse_text_line("short".into(), "App").ts, None);
    assert_eq!(parse_text_line("12-34-56 x".into(), "App").ts, None);
    assert_eq!(parse_text_line("中2:34:56".into(), "App").ts, None);
    let line = LogLine { ts: None, level: "ERROR".into(), source: "App".into(), message: "Disk Full".into() };
    assert!(line.matches(""));
    assert!(line.matches("disk"));
    assert!(line.matches("error"));
    assert!(line.matches("app"));
    assert!(!line.matches("net"));

    let mut state = LogsState::new();
    state.set_app(10, vec!["alpha one".into(), "beta two".into(), "alpha three".into()]);
    state.set_filter("ALPHA".into());
    let shown: Vec<&str> = state.visible_lines().iter().map(|l| l.message.as_str()).collect();
    assert_eq!(shown, vec!["alpha one", "alpha three"]);
    state.on_up_key();
    assert_eq!(state.lines_state.selected, Some(1));
    state.on_down_key();
    assert_eq!(state.lines_state.selected, Some(0));
    state.next_tab();
    assert_eq!(state.tab, LogsTab::Core);
    assert_eq!(state.lines_state.selected, None);
    assert!(state.visible_lines().is_empty());
    state.next_tab();
    state.set_audit(3, vec![
        AuditRecord { op: "ProfileImport".into(), op_id: "1".into(), ts: 1, result: "ok".into(), err: None },
        AuditRecord { op: "SetTun".into(), op_id: "2".into(), ts: 2, result: "ok".into(), err: None },
    ]);
    state.set_filter("tun".into());
    assert_eq!(state.visible_audit().len(), 1);
    state.on_down_key();
    assert_eq!(state.table_state.selected, Some(0));
    state.next_tab();
    assert_eq!(state.tab, LogsTab::App);
}

#[test]
fn connection_rows_and_detail() {
    assert_eq!(clard::tui::canvas::transfer_headers(ConnectionsSort::Upload), ("Upload ↓", "Download"));
    assert_eq!(clard::tui::canvas::transfer_headers(ConnectionsSort::Download), ("Upload", "Download ↓"));
    let mut c = connection("c1", 1536, 999);
    c.metadata.host = "example.com".into();
    c.chains = vec!["HK".into(), "relay".into(), "Proxy".into()];
    let row = clard::tui::canvas::connection_row(&c);
    assert_eq!(
        (row.host.as_str(), row.process.as_str(), row.network.as_str(), row.upload.as_str(), row.download.as_str()),
        ("example.com", "-", "tcp", "1.5 KB", "999 B")
    );
    assert_eq!((row.rule.as_str(), row.chain.as_str()), ("-", "HK → Proxy"));
    c.metadata.source_ip = "10.0.0.2".into();
    c.metadata.source_port = "5555".into();
    c.metadata.destination_geo_ip = Some(vec!["US".into(), "CA".into()]);
    c.rule = "MATCH".into();
    c.start = "2024-05-01T10:00:00Z".into();
    let d = clard::tui::canvas::connection_detail(&c);
    assert_eq!((d.host.as_str(), d.id.as_str(), d.kind.as_str()), ("example.com", "c1", "HTTP"));
    assert_eq!((d.source.as_str(), d.target.as_str()), ("10.0.0.2:5555", "-:-"));
    assert_eq!((d.geo.as_str(), d.asn.as_str()), ("- → US/CA", "- → -"));
    assert_eq!((d.rule.as_str(), d.chains.as_str(), d.started.as_str()), ("MATCH", "HK → relay → Proxy", "2024-05-01T10:00:00Z"));
    assert_eq!(d.inbound, "- -:-");
}

#[test]
fn removing_the_current_profile_switches_to_the_first_left() {
    let left = vec![item("b", "B"), item("c", "C")];
    assert_eq!(clard::tui::app::profiles::profile_after_removal(Some("a"), "a", &left), Some("b".to_string()));
    assert_eq!(clard::tui::app::profiles::profile_after_removal(Some("x"), "a", &left), None);
    assert_eq!(clard::tui::app::profiles::profile_after_removal(None, "a", &left), None);
    assert_eq!(clard::tui::app::profiles::profile_after_removal(Some("a"), "a", &Vec::new()), None);
}

#[test]
fn menu_cursor_stops_at_the_last_entry() {
    let mut m = clard::tui::app::state::MenuState::init();
    for _ in 0..5 {
        m.next();
    }
    assert_eq!(m.current(), clard::tui::app::state::MenuItem::NetTest);
    m.next();
    assert_eq!(m.current(), clard::tui::app::state::MenuItem::last());
}

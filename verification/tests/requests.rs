use clard::tui::app::i18n::Lang;
use clard::tui::app::modal::{ConfirmPurpose, InputPurpose};
use clard::tui::app::page::Page;
use clard::tui::app::profiles::ProfileBusy;
use clard::tui::app::settings::SettingsTab;
use clard::tui::client::Client;
use clard::tui::keys::{Key, Modifiers};
use clard::tui::models::{Groups, HelperConfig, ProfileItem, Proxy, ProxyType, Settings};
use clard::tui::requests::{Command, Reaction};

fn profile(uid: &str, name: &str) -> ProfileItem {
    ProfileItem { uid: uid.into(), name: name.into(), url: "https://sub.example".into(), updated_at: None, interval: 0 }
}

fn group(name: &str, all: Vec<&str>) -> Proxy {
    Proxy {
        all: Some(all.into_iter().map(ToString::to_string).collect()),
        now: None,
        name: name.into(),
        alive: true,
        history: Vec::new(),
        extra: Vec::new(),
        proxy_type: ProxyType::Selector,
        udp: false,
        uot: false,
        xudp: false,
        tfo: false,
        mptcp: false,
        smux: false,
        expected_status: None,
        fixed: None,
        hidden: None,
        icon: None,
        test_url: None,
        id: None,
        provider_name: None,
        interface: String::new(),
        dialer_proxy: String::new(),
        routing_mark: 0,
    }
}

fn settings(language: &str) -> Settings {
    Settings {
        language: language.into(),
        theme: "dark".into(),
        test_url: String::new(),
        mixed_port: 7890,
        auto_update_interval_hours: 6,
        tun_enabled: false,
        tun_stack: "system".into(),
        tun_dns_mode: "fake-ip".into(),
        dns_hijack: Vec::new(),
        route_exclude_address: Vec::new(),
        exclude_uid: Vec::new(),
        exclude_interface: Vec::new(),
        exclude_dst_port: Vec::new(),
        strict_route: false,
        auto_redirect: false,
    }
}

fn client_with_profiles() -> Client {
    let mut client = Client::init();
    client.switch_page(Page::Profiles);
    client.apply_profiles(Some("a".into()), vec![profile("a", "home"), profile("b", "work")]);
    client
}

#[test]
fn profile_keys_ask_for_requests_and_dialogs() {
    let mut client = client_with_profiles();
    let sent = client.on_page_char('u');
    assert!(matches!(sent.as_slice(), [Command::UpdateProfile(uid)] if uid == "a"));
    assert_eq!(client.profiles.busy, ProfileBusy::Updating);
    assert_eq!(client.profiles.busy_uid.as_deref(), Some("a"));
    let sent = client.on_page_char(']');
    assert!(matches!(sent.as_slice(), [Command::MoveProfile { uid, up: false }] if uid == "a"));
    assert!(client.on_page_char('r').is_empty());
    let input = client.input.as_ref().unwrap();
    assert_eq!(input.title, "Rename profile");
    assert_eq!(input.buffer, "home");
    assert_eq!(input.cursor, 4);
}

#[test]
fn deleting_the_current_profile_is_confirmed_first() {
    let mut client = client_with_profiles();
    assert!(client.on_page_char('d').is_empty());
    let confirm = client.confirm.as_ref().unwrap();
    assert_eq!(confirm.message, "Delete 'home'? This cannot be undone.");
    assert!(client.on_confirm_key(Key::Char('y'), Modifiers::Plain).is_empty());
    assert!(client.confirm.is_some());
    let sent = client.on_confirm_key(Key::Enter, Modifiers::Plain);
    assert!(client.confirm.is_none());
    assert!(matches!(sent.as_slice(), [Command::RemoveProfile { uid, was_current: true }] if uid == "a"));
}

#[test]
fn import_dialog_submits_the_trimmed_url() {
    let mut client = client_with_profiles();
    client.on_page_char('i');
    assert_eq!(client.input.as_ref().unwrap().purpose, InputPurpose::ImportProfileUrl);
    for c in " http://x/y ".chars() {
        assert!(client.on_input_key(Key::Char(c), Modifiers::Plain).is_empty());
    }
    let sent = client.on_input_key(Key::Enter, Modifiers::Plain);
    assert!(client.input.is_none());
    assert!(matches!(sent.as_slice(), [Command::ImportProfile(url)] if url == "http://x/y"));
    assert_eq!(client.message.as_deref(), Some("importing http://x/y…"));
}

#[test]
fn input_dialog_editing_keys() {
    let mut client = client_with_profiles();
    client.on_page_char('i');
    for c in "ab".chars() {
        client.on_input_key(Key::Char(c), Modifiers::Plain);
    }
    client.on_input_key(Key::Left, Modifiers::Plain);
    client.on_input_key(Key::Char('X'), Modifiers::Plain);
    assert_eq!(client.input.as_ref().unwrap().buffer, "aXb");
    client.on_input_key(Key::Backspace, Modifiers::Plain);
    assert_eq!(client.input.as_ref().unwrap().buffer, "ab");
    client.on_input_key(Key::Char('u'), Modifiers::Control);
    assert_eq!(client.input.as_ref().unwrap().buffer, "");
    client.on_input_key(Key::Esc, Modifiers::Plain);
    assert!(client.input.is_none());
}

#[test]
fn enter_switches_the_current_profile() {
    let mut client = client_with_profiles();
    client.profiles.on_down_key();
    let sent = client.on_enter_key();
    assert!(matches!(sent.as_slice(), [Command::SetCurrentProfile(uid)] if uid == "b"));
    assert_eq!(client.message.as_deref(), Some("switching to b…"));
}

#[test]
fn close_all_connections_after_confirmation() {
    let mut client = Client::init();
    client.switch_page(Page::Connections);
    assert!(client.on_page_char('x').is_empty());
    assert!(client.on_page_char('X').is_empty());
    assert_eq!(client.confirm.as_ref().unwrap().purpose, ConfirmPurpose::CloseAllConnections);
    let sent = client.on_confirm_key(Key::Enter, Modifiers::Plain);
    assert!(matches!(sent.as_slice(), [Command::CloseAllConnections]));
}

#[test]
fn proxy_tests_use_the_configured_url() {
    let mut client = Client::init();
    client.switch_page(Page::Proxies);
    assert!(client.on_page_char('T').is_empty());
    client.proxies.update_groups(Groups { proxies: vec![group("G1", vec!["n1"]), group("G2", vec!["n2"])] });
    let sent = client.on_page_char('T');
    match sent.as_slice() {
        [Command::TestAllGroups { groups, url }] => {
            assert_eq!(groups, &vec!["G1".to_string(), "G2".to_string()]);
            assert_eq!(url, "http://www.gstatic.com/generate_204");
        }
        _ => panic!("expected a test of every group"),
    }
    let mut s = settings("en");
    s.test_url = "http://t/204".into();
    client.apply_settings(s);
    assert_eq!(client.test_url(), "http://t/204");
}

#[test]
fn settings_core_and_logs_keys() {
    let mut client = Client::init();
    client.switch_page(Page::Settings);
    client.settings.set_tab(SettingsTab::Core);
    let sent = client.on_page_char('c');
    assert!(matches!(sent.as_slice(), [Command::CheckUpdate { current: None }]));
    assert_eq!(client.message.as_deref(), Some("checking for updates…"));
    assert!(client.on_page_char('S').is_empty());
    assert_eq!(client.confirm.as_ref().unwrap().purpose, ConfirmPurpose::StopCore);
    client.settings.set_tab(SettingsTab::Logs);
    client.settings.apply_helper_config(HelperConfig {
        log_level: "info".into(),
        app_log_max_bytes: 1048576,
        app_log_keep: 5,
        audit_keep: 5,
        audit_dual_write: true,
    });
    client.on_page_char('e');
    assert_eq!(
        client.message.as_deref(),
        Some("sudo sed -i 's/log_level = \"info\"/log_level = \"debug\"/' /etc/clard/helper.toml")
    );
}

#[test]
fn strict_route_confirmation_sends_only_that_switch() {
    let mut client = Client::init();
    client.switch_page(Page::Settings);
    client.settings.set_tab(SettingsTab::Tun);
    client.apply_settings(settings("zh"));
    assert_eq!(client.lang, Lang::Zh);
    for _ in 0..5 {
        client.settings.on_down_key(10);
    }
    client.on_page_char('e');
    assert_eq!(client.confirm.as_ref().unwrap().purpose, ConfirmPurpose::EnableStrictRoute);
    let sent = client.on_confirm_key(Key::Enter, Modifiers::Plain);
    match sent.as_slice() {
        [Command::SetTunSetting(p)] => {
            assert_eq!(p.strict_route, Some(true));
            assert_eq!(p.tun_stack, None);
        }
        _ => panic!("expected a TUN change"),
    }
}

#[test]
fn keys_reach_dialogs_pages_and_quit() {
    let mut client = client_with_profiles();
    assert!(matches!(client.on_key(Key::Char('c'), Modifiers::Control, 10), Reaction::Quit));
    assert!(matches!(client.on_key(Key::Char('?'), Modifiers::Plain, 10), Reaction::Send(v) if v.is_empty()));
    assert!(client.show_help);
    assert!(matches!(client.on_key(Key::Enter, Modifiers::Plain, 10), Reaction::Send(v) if v.is_empty()));
    assert!(client.show_help);
    client.on_key(Key::Esc, Modifiers::Plain, 10);
    assert!(!client.show_help);
    client.on_key(Key::Char('j'), Modifiers::Plain, 10);
    assert_eq!(client.profiles.list_state.selected, Some(1));
    match client.on_key(Key::Char('3'), Modifiers::Plain, 10) {
        Reaction::Send(v) => assert!(matches!(v.as_slice(), [Command::Fetch(_)])),
        Reaction::Quit => panic!("digits switch pages"),
    }
    assert_eq!(client.current_page, Page::Proxies);
    client.on_key(Key::Esc, Modifiers::Plain, 10);
    assert_eq!(client.current_page, Page::Home);
    assert!(matches!(client.on_key(Key::Esc, Modifiers::Plain, 10), Reaction::Quit));
    assert!(matches!(client.on_char('q', 10), Reaction::Quit));
}

#[test]
fn open_dialogs_take_the_keys() {
    let mut client = client_with_profiles();
    client.on_key(Key::Char('i'), Modifiers::Plain, 10);
    assert!(client.input.is_some());
    client.on_key(Key::Char('q'), Modifiers::Plain, 10);
    assert_eq!(client.input.as_ref().unwrap().buffer, "q");
    client.on_key(Key::Esc, Modifiers::Plain, 10);
    assert!(client.input.is_none());
    client.on_key(Key::Char('d'), Modifiers::Plain, 10);
    assert!(client.confirm.is_some());
    client.on_key(Key::Esc, Modifiers::Plain, 10);
    assert!(client.confirm.is_none());
    assert_eq!(client.current_page, Page::Profiles);
}

fn versions() -> Vec<clard::tui::models::ProfileVersion> {
    vec![
        clard::tui::models::ProfileVersion { version: 3, updated_at: Some(86400) },
        clard::tui::models::ProfileVersion { version: 2, updated_at: None },
    ]
}

#[test]
fn history_view_restores_the_chosen_version() {
    let mut client = Client::init();
    client.apply_history("p1".into(), versions());
    assert!(matches!(client.on_key(Key::Char('q'), Modifiers::Plain, 10), Reaction::Send(v) if v.is_empty()));
    assert!(client.history.is_some());
    client.on_key(Key::Down, Modifiers::Plain, 10);
    assert_eq!(client.history.as_ref().unwrap().list_state.selected, Some(1));
    client.on_key(Key::Char('j'), Modifiers::Plain, 10);
    assert_eq!(client.history.as_ref().unwrap().list_state.selected, Some(0));
    client.on_key(Key::Char('k'), Modifiers::Plain, 10);
    assert_eq!(client.history.as_ref().unwrap().list_state.selected, Some(1));
    match client.on_key(Key::Enter, Modifiers::Plain, 10) {
        Reaction::Send(v) => {
            assert_eq!(v.len(), 1);
            assert!(matches!(&v[0], Command::RestoreProfile { uid, version: 2 } if uid == "p1"));
        }
        Reaction::Quit => panic!("restoring must not quit"),
    }
    assert!(client.history.is_none());
}

#[test]
fn history_view_closes_and_shows_versions() {
    let mut client = Client::init();
    client.apply_history("p1".into(), Vec::new());
    assert!(matches!(client.on_key(Key::Enter, Modifiers::Plain, 10), Reaction::Send(v) if v.is_empty()));
    assert!(client.history.is_some());
    client.on_key(Key::Esc, Modifiers::Plain, 10);
    assert!(client.history.is_none());
    let (label, time) = clard::tui::app::history::version_row(&versions()[0]);
    assert_eq!((label.as_str(), time.as_str()), ("v3", "1970-01-02 00:00:00"));
    assert_eq!(clard::tui::app::history::version_row(&versions()[1]).1, "-");
}

use clard::ipc::backend::Protocol;
use clard::ipc::websocket::generate_websocket_key;
use clard::tui::flows::{default_protocol, expand_home, profile_import_message, update_check_message};
use clard::tui::app::logs::LogsTab;
use clard::tui::app::page::Page;
use clard::tui::app::profiles::ProfileBusy;
use clard::tui::app::proxy::ProxyFocus;
use clard::tui::app::rules::RulesTab;
use clard::tui::client::{Client, Fetch};
use clard::tui::commands::{
    current_profile_line, imported_message, profile_list_lines, removed_message, signed_decimal_string,
    switched_message, updated_message, ClardCmd, Cli, ProfilesCmd, ProfilesSub,
};
use clard::tui::keys::{
    route_char, route_confirm_key, route_input_key, route_key, CharRoute, InputKey, Key, KeyRoute, Modifiers,
    Overlays,
};
use clard::tui::models::ProfileItem;
use clard::tui::rpc::{encode_frame, frame_length, socket_path, RpcError};

fn profile(uid: &str, name: &str, updated_at: Option<i64>) -> ProfileItem {
    ProfileItem {
        uid: uid.into(),
        name: name.into(),
        url: format!("https://{name}.example/sub"),
        updated_at,
        interval: 0,
    }
}

const NONE_OPEN: Overlays = Overlays { help: false, confirm: false, input: false, history: false };

#[test]
fn switching_pages_keeps_page_state() {
    let mut client = Client::init();
    assert_eq!(client.current_page, Page::Home);
    let fetched = client.switch_page(Page::Logs);
    assert_eq!(fetched, vec![Fetch::Logs, Fetch::Audit]);
    client.on_tab_key();
    assert_eq!(client.logs.tab, LogsTab::Core);
    client.switch_page(Page::Rules);
    client.on_tab_key();
    assert_eq!(client.rules.tab, RulesTab::Providers);
    client.switch_page(Page::Logs);
    assert_eq!(client.logs.tab, LogsTab::Core);
    assert_eq!(client.rules.tab, RulesTab::Providers);
}

#[test]
fn traffic_stream_is_opened_once() {
    let mut client = Client::init();
    assert_eq!(client.switch_page(Page::Connections), vec![Fetch::Connections, Fetch::SubscribeTraffic]);
    assert!(client.traffic_subscription_started);
    assert!(client.connections_refresh_due());
    client.switch_page(Page::Home);
    assert!(!client.connections_refresh_due());
    assert_eq!(client.switch_page(Page::Connections), vec![Fetch::Connections]);
    assert_eq!(
        client.switch_page(Page::Settings),
        vec![Fetch::Settings, Fetch::CoreStatus, Fetch::Backups, Fetch::HelperConfig]
    );
    assert_eq!(client.switch_page(Page::Home), vec![Fetch::CoreStatus, Fetch::HelperVersion]);
}

#[test]
fn esc_closes_help_then_goes_home_then_quits() {
    let mut client = Client::init();
    client.switch_page(Page::Proxies);
    client.toggle_help();
    assert!(client.show_help);
    assert!(!client.on_esc_key());
    assert!(!client.show_help);
    assert_eq!(client.current_page, Page::Proxies);
    assert!(!client.on_esc_key());
    assert_eq!(client.current_page, Page::Home);
    assert!(client.on_esc_key());
}

#[test]
fn tab_and_arrows_move_the_proxy_focus() {
    let mut client = Client::init();
    client.switch_page(Page::Proxies);
    assert_eq!(client.proxies.focus, ProxyFocus::Groups);
    client.on_tab_key();
    assert_eq!(client.proxies.focus, ProxyFocus::Proxies);
    client.on_left_key();
    assert_eq!(client.proxies.focus, ProxyFocus::Groups);
    client.on_right_key();
    assert_eq!(client.proxies.focus, ProxyFocus::Proxies);
    client.switch_page(Page::Home);
    client.on_left_key();
    assert_eq!(client.proxies.focus, ProxyFocus::Proxies);
}

#[test]
fn applying_profiles_clears_busy_state() {
    let mut client = Client::init();
    client.profiles.busy = ProfileBusy::Updating;
    client.profiles.busy_uid = Some("a".into());
    client.apply_profiles(Some("a".into()), vec![profile("a", "one", None)]);
    assert_eq!(client.profiles.busy, ProfileBusy::Idle);
    assert_eq!(client.profiles.busy_uid, None);
    assert_eq!(client.profiles.items.len(), 1);
    client.show_message("done".into());
    assert_eq!(client.message.as_deref(), Some("done"));
}

#[test]
fn ctrl_c_quits_even_over_dialogs() {
    let all_open = Overlays { help: true, confirm: true, input: true, history: true };
    assert_eq!(route_key(Key::Char('c'), Modifiers::Control, all_open), KeyRoute::Terminate);
    assert_eq!(route_key(Key::Char('c'), Modifiers::Control, NONE_OPEN), KeyRoute::Terminate);
}

#[test]
fn dialogs_take_keys_in_order() {
    let help = Overlays { help: true, confirm: true, input: false, history: false };
    assert_eq!(route_key(Key::Esc, Modifiers::Plain, help), KeyRoute::CloseHelp);
    assert_eq!(route_key(Key::Char('?'), Modifiers::Plain, help), KeyRoute::CloseHelp);
    assert_eq!(route_key(Key::Enter, Modifiers::Plain, help), KeyRoute::Ignore);
    let confirm = Overlays { help: false, confirm: true, input: true, history: false };
    assert_eq!(route_key(Key::Enter, Modifiers::Plain, confirm), KeyRoute::Confirm);
    let input = Overlays { help: false, confirm: false, input: true, history: true };
    assert_eq!(route_key(Key::Char('x'), Modifiers::Control, input), KeyRoute::Input);
    let history = Overlays { help: false, confirm: false, input: false, history: true };
    assert_eq!(route_key(Key::Up, Modifiers::Plain, history), KeyRoute::History);
    assert_eq!(route_key(Key::Up, Modifiers::Plain, NONE_OPEN), KeyRoute::Page(Key::Up));
    assert_eq!(route_key(Key::Up, Modifiers::Other, NONE_OPEN), KeyRoute::Ignore);
    assert_eq!(route_key(Key::Other, Modifiers::Plain, NONE_OPEN), KeyRoute::Ignore);
}

#[test]
fn global_characters_come_first() {
    assert_eq!(route_char('?', false), CharRoute::ToggleHelp);
    assert_eq!(route_char('q', true), CharRoute::Quit);
    assert_eq!(route_char('j', false), CharRoute::Move(Key::Down));
    assert_eq!(route_char('l', false), CharRoute::Move(Key::Right));
    assert_eq!(route_char('7', false), CharRoute::SwitchPage(Page::Rules));
    assert_eq!(route_char('1', true), CharRoute::SwitchPage(Page::Home));
    assert_eq!(route_char('8', false), CharRoute::PageChar('8'));
    assert_eq!(route_char('x', false), CharRoute::PageChar('x'));
    assert_eq!(route_char('x', true), CharRoute::Ignore);
}

#[test]
fn input_and_confirm_dialog_keys() {
    assert_eq!(route_input_key(Key::Char('u'), Modifiers::Control), InputKey::Clear);
    assert_eq!(route_input_key(Key::Char('a'), Modifiers::Control), InputKey::Ignore);
    assert_eq!(route_input_key(Key::Char('a'), Modifiers::Plain), InputKey::Insert('a'));
    assert_eq!(route_input_key(Key::Enter, Modifiers::Plain), InputKey::Submit);
    assert_eq!(route_input_key(Key::Esc, Modifiers::Plain), InputKey::Cancel);
    assert_eq!(route_input_key(Key::Tab, Modifiers::Plain), InputKey::Ignore);
    assert_eq!(route_confirm_key(Key::Enter, Modifiers::Plain), Some(true));
    assert_eq!(route_confirm_key(Key::Esc, Modifiers::Plain), Some(false));
    assert_eq!(route_confirm_key(Key::Enter, Modifiers::Control), None);
}

#[test]
fn command_line_chooses_the_client_or_profiles() {
    let list = Cli { cmd: Some(ClardCmd::Profiles(ProfilesCmd { cmd: ProfilesSub::List })), tui: false };
    assert!(matches!(list.into_profiles_command(), Some(ProfilesSub::List)));
    let forced = Cli { cmd: Some(ClardCmd::Profiles(ProfilesCmd { cmd: ProfilesSub::Current })), tui: true };
    assert!(forced.into_profiles_command().is_none());
    assert!(Cli { cmd: None, tui: false }.into_profiles_command().is_none());
}

#[test]
fn profile_list_marks_the_current_one() {
    let items = vec![profile("a1", "home", Some(1700000000)), profile("b2", "work", None)];
    assert_eq!(
        profile_list_lines(Some("b2"), &items),
        vec![
            "  a1  home  https://home.example/sub  updated=Some(1700000000)".to_string(),
            "* b2  work  https://work.example/sub  updated=None".to_string(),
        ]
    );
    assert_eq!(profile_list_lines(None, &Vec::new()), vec!["(无配置)".to_string()]);
    assert_eq!(signed_decimal_string(-42), "-42");
    assert_eq!(signed_decimal_string(i64::MIN), "-9223372036854775808");
}

#[test]
fn current_profile_and_messages() {
    let items = vec![profile("a1", "home", None), profile("b2", "work", None)];
    assert_eq!(current_profile_line(Some("b2"), &items), "b2  work");
    assert_eq!(current_profile_line(Some("zz"), &items), "(当前配置不存在)");
    assert_eq!(current_profile_line(None, &items), "(无当前配置)");
    assert_eq!(imported_message("u1", false), "已导入: u1");
    assert_eq!(imported_message("u1", true), "同 URL 已覆盖更新: u1");
    assert_eq!(updated_message("u1", true), "已更新: u1（覆盖更新: true）");
    assert_eq!(removed_message("u1"), "已删除: u1");
    assert_eq!(switched_message("u1"), "已切换当前配置: u1");
}

#[test]
fn rpc_frames_carry_a_big_endian_length() {
    let frame = encode_frame(b"{\"a\":1}");
    assert_eq!(frame[..4], [0, 0, 0, 7]);
    assert_eq!(&frame[4..], b"{\"a\":1}");
    let long = vec![b'x'; 0x0102_03];
    assert_eq!(encode_frame(&long)[..4], [0, 0x01, 0x02, 0x03]);
    assert_eq!(frame_length([0, 0, 1, 0]), 256);
    assert_eq!(frame_length([1, 2, 3, 4]), 0x0102_0304);
}

#[test]
fn socket_path_and_error_messages() {
    assert_eq!(socket_path(None), "/run/clard/helper.sock");
    assert_eq!(socket_path(Some(String::new())), "/run/clard/helper.sock");
    assert_eq!(socket_path(Some("/tmp/h.sock".into())), "/tmp/h.sock");
    assert_eq!(RpcError::Decode("eof".into()).message(), "响应解析失败: eof");
    assert_eq!(
        RpcError::Connect("refused".into()).message(),
        "无法连接后台服务: refused（systemctl status clard-helper 或 i 安装）"
    );
}

#[test]
fn websocket_keys_are_fresh_base64() {
    let a = generate_websocket_key();
    let b = generate_websocket_key();
    assert_eq!(a.len(), 24);
    assert!(a.ends_with("=="));
    assert!(a.chars().all(|c| c.is_ascii_alphanumeric() || c == '+' || c == '/' || c == '='));
    assert_ne!(a, b);
}

#[test]
fn update_check_messages() {
    assert_eq!(update_check_message(Some("v1.19.0"), "v1.19.0"), "core is up to date (v1.19.0)");
    assert_eq!(update_check_message(Some("1.19.0"), "vv1.19.0"), "core is up to date (v1.19.0)");
    assert_eq!(update_check_message(None, "v1.19.1"), "latest core: v1.19.1  (press i to install)");
    assert_eq!(update_check_message(Some("v"), "v1.19.1"), "latest core: v1.19.1  (press i to install)");
    assert_eq!(
        update_check_message(Some("v1.18.0"), "v1.19.1"),
        "update available: v1.18.0 → v1.19.1  (press i to upgrade)"
    );
}

#[test]
fn import_messages_paths_and_default_controller() {
    assert_eq!(profile_import_message("u9", true), "profile updated: u9");
    assert_eq!(profile_import_message("u9", false), "profile imported: u9");
    assert_eq!(expand_home("~/clard-audit.json", Some("/home/a")), "/home/a/clard-audit.json");
    assert_eq!(expand_home("~/x", None), "~/x");
    assert_eq!(expand_home("/tmp/x", Some("/home/a")), "/tmp/x");
    assert_eq!(expand_home("~x", Some("/home/a")), "~x");
    assert_eq!(default_protocol(true), Protocol::UDS("/tmp/verge/verge-mihomo.sock".into()));
    assert_eq!(default_protocol(false), Protocol::TCP("127.0.0.1:9090".into()));
}

fn tun_settings(enabled: bool) -> clard::tui::models::Settings {
    clard::tui::models::Settings {
        language: "en".into(),
        theme: "dark".into(),
        test_url: String::new(),
        mixed_port: 7891,
        auto_update_interval_hours: 6,
        tun_enabled: enabled,
        tun_stack: String::new(),
        tun_dns_mode: "redir-host".into(),
        dns_hijack: vec!["any:53".into()],
        route_exclude_address: Vec::new(),
        exclude_uid: vec![1000],
        exclude_interface: vec!["docker0".into()],
        exclude_dst_port: vec![22, 443],
        strict_route: true,
        auto_redirect: false,
    }
}

#[test]
fn core_options_follow_the_helper_settings() {
    let off = clard::tui::flows::config_options(&tun_settings(false), "  ");
    assert_eq!(off.mixed_port, 7891);
    assert_eq!(off.log_level, "info");
    assert!(off.tun.is_none());
    let on = clard::tui::flows::config_options(&tun_settings(true), " debug ");
    assert_eq!(on.log_level, "debug");
    let tun = on.tun.expect("TUN is on");
    assert_eq!(tun.stack, None);
    assert_eq!(tun.dns_mode.as_deref(), Some("redir-host"));
    assert_eq!(tun.dns_hijack, Some(vec!["any:53".to_string()]));
    assert_eq!(tun.route_exclude_address, None);
    assert_eq!(tun.exclude_uid, vec![1000]);
    assert_eq!(tun.exclude_interface, vec!["docker0".to_string()]);
    assert_eq!(tun.exclude_dst_port, vec![22, 443]);
    assert!(tun.strict_route);
    assert!(!tun.auto_redirect);
}

#[test]
fn home_page_figures() {
    let mut client = Client::init();
    let h = clard::tui::canvas::home_figures(&client);
    assert_eq!((h.state.as_str(), h.running, h.tun.as_str(), h.pid.as_str()), ("unknown", false, "Off", "-"));
    assert_eq!((h.profile.as_str(), h.updated.as_str(), h.helper.as_str()), ("(none)", "-", "unreachable"));
    assert_eq!((h.upload_rate.as_str(), h.download_total.as_str()), ("-", "-"));
    client.home.core_state = Some("running".into());
    client.home.core_pid = Some(77);
    client.home.tun_active = true;
    client.home.helper_version = Some("0.4.1".into());
    client.apply_profiles(Some("a".into()), vec![profile("a", "Alpha", Some(86400)), profile("b", "Beta", None)]);
    client.connections.update_traffic(clard::tui::models::Traffic { up: 2048, down: 10 });
    let h = clard::tui::canvas::home_figures(&client);
    assert!(h.running);
    assert_eq!((h.tun.as_str(), h.pid.as_str(), h.helper.as_str()), ("On", "77", "v0.4.1"));
    assert_eq!((h.profile.as_str(), h.updated.as_str()), ("Alpha", "1970-01-02 00:00:00"));
    assert_eq!((h.upload_rate.as_str(), h.download_rate.as_str()), ("2 KB/s", "10 B/s"));
    client.profiles.on_down_key();
    let h = clard::tui::canvas::home_figures(&client);
    assert_eq!((h.profile.as_str(), h.updated.as_str()), ("(none)", "-"));
}

#[test]
fn profile_list_marks_and_details() {
    let mut client = Client::init();
    client.apply_profiles(Some("a".into()), vec![profile("a", "Alpha", None), profile("b", "Beta", None)]);
    assert_eq!(clard::tui::canvas::profile_status(&client.profiles, "a"), "current");
    assert_eq!(clard::tui::canvas::profile_status(&client.profiles, "b"), "");
    client.profiles.busy = ProfileBusy::Updating;
    client.profiles.busy_uid = Some("b".into());
    assert_eq!(clard::tui::canvas::profile_status(&client.profiles, "b"), "updating…");
    assert_eq!(clard::tui::canvas::format_interval(0), "off");
    assert_eq!(clard::tui::canvas::format_interval(3600), "3600s");
    assert_eq!(clard::tui::canvas::format_time_or_dash(None), "-");
    assert_eq!(clard::tui::canvas::format_time_or_dash(Some(0)), "1970-01-01 00:00:00");
}

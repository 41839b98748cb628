use clard::tui::app::actions::{
    general_row_action, split_csv, split_csv_u16, split_csv_u32, submit_input_action, tun_row_action, InputAction,
    SettingsAction, SettingsPatch,
};
use clard::tui::app::i18n::Lang;
use clard::tui::app::modal::{ConfirmPurpose, InputPurpose};
use clard::tui::app::settings::{GeneralRow, TunRow};
use clard::tui::models::Settings;

fn settings() -> Settings {
    Settings {
        language: "en".into(),
        theme: "dark".into(),
        test_url: "http://t/204".into(),
        mixed_port: 7890,
        auto_update_interval_hours: 0,
        tun_enabled: true,
        tun_stack: "gvisor".into(),
        tun_dns_mode: "redir-host".into(),
        dns_hijack: vec!["any:53".into(), "tcp://any:53".into()],
        route_exclude_address: vec![],
        exclude_uid: vec![],
        exclude_interface: vec![],
        exclude_dst_port: vec![],
        strict_route: true,
        auto_redirect: false,
    }
}

#[test]
fn csv_lists_trim_and_drop_empty_entries() {
    assert_eq!(split_csv(" a , b,,c ,"), vec!["a", "b", "c"]);
    assert!(split_csv("").is_empty());
    assert!(split_csv(" , ,").is_empty());
    assert_eq!(split_csv("single"), vec!["single"]);
    assert_eq!(split_csv_u32("1, 2,x, 4294967295, 4294967296,+7"), vec![1, 2, 4294967295, 7]);
    assert_eq!(split_csv_u16("53, 65535, 65536, -1, 443"), vec![53, 65535, 443]);
}

#[test]
fn tun_rows_confirm_cycle_or_edit() {
    let s = Some(settings());
    match tun_row_action(&s, TunRow::TunEnabled) {
        SettingsAction::Confirm(c) => {
            assert_eq!(c.purpose, ConfirmPurpose::SetTun { enable: false });
            assert_eq!(c.title, "Disable TUN");
        }
        other => panic!("unexpected {other:?}"),
    }
    match tun_row_action(&None, TunRow::TunEnabled) {
        SettingsAction::Confirm(c) => assert_eq!(c.purpose, ConfirmPurpose::SetTun { enable: true }),
        other => panic!("unexpected {other:?}"),
    }
    match tun_row_action(&s, TunRow::TunStack) {
        SettingsAction::Apply(p) => assert_eq!(p.tun_stack.as_deref(), Some("mixed")),
        other => panic!("unexpected {other:?}"),
    }
    match tun_row_action(&None, TunRow::TunStack) {
        SettingsAction::Apply(p) => assert_eq!(p.tun_stack.as_deref(), Some("mixed")),
        other => panic!("unexpected {other:?}"),
    }
    match tun_row_action(&s, TunRow::TunDnsMode) {
        SettingsAction::Apply(p) => {
            assert_eq!(p.tun_dns_mode.as_deref(), Some("fake-ip"));
            assert_eq!(p.tun_stack, None);
        }
        other => panic!("unexpected {other:?}"),
    }
    match tun_row_action(&s, TunRow::DnsHijack) {
        SettingsAction::Input(i) => {
            assert_eq!(i.purpose, InputPurpose::EditDnsHijack);
            assert_eq!(i.buffer, "any:53,tcp://any:53");
            assert_eq!(i.cursor, i.buffer.len());
        }
        other => panic!("unexpected {other:?}"),
    }
    match tun_row_action(&s, TunRow::StrictRoute) {
        SettingsAction::Apply(p) => assert_eq!(p.strict_route, Some(false)),
        other => panic!("unexpected {other:?}"),
    }
    match tun_row_action(&s, TunRow::AutoRedirect) {
        SettingsAction::Confirm(c) => assert_eq!(c.purpose, ConfirmPurpose::EnableAutoRedirect),
        other => panic!("unexpected {other:?}"),
    }
    match tun_row_action(&s, TunRow::RecoverDirect) {
        SettingsAction::Confirm(c) => assert_eq!(c.purpose, ConfirmPurpose::CleanupTun),
        other => panic!("unexpected {other:?}"),
    }
}

#[test]
fn general_rows_edit_or_switch() {
    let s = Some(settings());
    match general_row_action(&s, GeneralRow::Language, Lang::En) {
        SettingsAction::Apply(p) => assert_eq!(p.language.as_deref(), Some("zh")),
        other => panic!("unexpected {other:?}"),
    }
    match general_row_action(&s, GeneralRow::Theme, Lang::En) {
        SettingsAction::Apply(p) => assert_eq!(p.theme.as_deref(), Some("light")),
        other => panic!("unexpected {other:?}"),
    }
    match general_row_action(&s, GeneralRow::TestUrl, Lang::En) {
        SettingsAction::Input(i) => {
            assert_eq!(i.buffer, "http://t/204");
            assert_eq!(i.cursor, 12);
        }
        other => panic!("unexpected {other:?}"),
    }
    assert!(matches!(general_row_action(&s, GeneralRow::Mode, Lang::En), SettingsAction::Nothing));
    assert!(matches!(general_row_action(&None, GeneralRow::MixedPort, Lang::Zh), SettingsAction::Input(_)));
}

#[test]
fn submitted_inputs_become_actions() {
    assert!(matches!(submit_input_action(InputPurpose::ImportProfileUrl, "   "), InputAction::Nothing));
    match submit_input_action(InputPurpose::ImportProfileUrl, " https://x/sub ") {
        InputAction::ImportProfile(u) => assert_eq!(u, "https://x/sub"),
        other => panic!("unexpected {other:?}"),
    }
    match submit_input_action(InputPurpose::EditMixedPort, " 7891 ") {
        InputAction::SetSetting(p) => assert_eq!(p.mixed_port, Some(7891)),
        other => panic!("unexpected {other:?}"),
    }
    match submit_input_action(InputPurpose::EditMixedPort, "70000") {
        InputAction::Notify(m) => assert_eq!(m, "invalid port"),
        other => panic!("unexpected {other:?}"),
    }
    match submit_input_action(InputPurpose::EditAutoUpdateHours, "x") {
        InputAction::Notify(m) => assert_eq!(m, "invalid hours"),
        other => panic!("unexpected {other:?}"),
    }
    match submit_input_action(InputPurpose::EditExcludeDstPort, "80, 443") {
        InputAction::SetTunSetting(p) => {
            assert_eq!(p.exclude_dst_port, Some(vec![80, 443]));
            assert_eq!(p.dns_hijack, None);
        }
        other => panic!("unexpected {other:?}"),
    }
    match submit_input_action(InputPurpose::RenameProfile { uid: "u1".into() }, " New ") {
        InputAction::RenameProfile { uid, name } => {
            assert_eq!(uid, "u1");
            assert_eq!(name, "New");
        }
        other => panic!("unexpected {other:?}"),
    }
    match submit_input_action(InputPurpose::FilterLogs, " err ") {
        InputAction::SetLogsFilter(f) => assert_eq!(f, "err"),
        other => panic!("unexpected {other:?}"),
    }
    assert_eq!(SettingsPatch::default().mixed_port, None);
}

//! What the terminal client's page keys ask for: the requests it sends to
//! the helper and the controller, and the dialogs it opens.

use vstd::prelude::*;
use crate::text::{utf8_byte_len, utf8_len};
use crate::tui::app::actions::{
    general_row_action, submit_input_action, tun_row_action, unset_except, InputAction, PatchField, SettingsAction,
    SettingsPatch,
};
use crate::tui::app::modal::{cursor_left, cursor_right};
use crate::tui::keys::{
    char_route, input_key, key_route, route_char, route_confirm_key, route_input_key, route_key, CharRoute, InputKey, Key,
    KeyRoute, Modifiers, Overlays,
};
use crate::text::{char_index_of, char_width, is_boundary};
use crate::tui::app::i18n::{parse_lang, Lang};
use crate::tui::app::settings::{
    general_row_at, logs_edit_hint, logs_row_at, tun_row_at, GeneralRow, SettingsTab, TunRow,
};
use crate::tui::app::modal::{ConfirmPurpose, ConfirmState, InputPurpose, InputState};
use crate::tui::app::page::Page;
use crate::app::proxy::{group_at, member_at};
use crate::tui::app::proxy::ProxyFocus;
use crate::tui::app::rules::RulesTab;
use crate::tui::app::connections::ConnectionsSort;
use crate::tui::models::Proxy;
use crate::tui::canvas::views;
use crate::tui::app::profiles::{item_at, ProfileBusy};
use crate::tui::client::{
    esc_effect, left_effect, only_current_page, page_fetches, page_stepped, right_effect, same_chrome, same_pages,
    step_ok, tab_effect, Client, Fetch,
};
use crate::tui::models::{ProfileItem, Settings};
use crate::tui::app::history::version_at;
use crate::tui::nav::{row_above_or_first, row_below, selected_as};

verus! {

/// A request to the helper or the controller.
#[derive(Debug, Clone)]
pub enum Command {
    /// Load data.
    Fetch(Fetch),
    /// Download a subscription and store it.
    ImportProfile(String),
    /// Download a profile again.
    UpdateProfile(String),
    /// Delete a profile; when it was the current one the next is chosen.
    RemoveProfile { uid: String, was_current: bool },
    RenameProfile { uid: String, name: String },
    /// Move a profile up or down the list.
    MoveProfile { uid: String, up: bool },
    /// Load the stored versions of a profile.
    OpenHistory(String),
    /// Put a stored version of a profile back.
    RestoreProfile { uid: String, version: u32 },
    /// Make a profile the current one.
    SetCurrentProfile(String),
    /// Select `node` in `group`.
    SelectNode { group: String, node: String },
    /// Measure the delay of a node against `url`.
    TestDelay { node: String, url: String },
    /// Measure every group against `url`.
    TestAllGroups { groups: Vec<String>, url: String },
    /// Drop the fixed choice of a group.
    ClearSelection(String),
    CloseConnection(String),
    CloseAllConnections,
    /// Disable (or enable) the rule at `index`.
    ToggleRule { index: usize, disabled: bool },
    UpdateRuleProvider(String),
    /// Change settings of the helper.
    SetSetting(SettingsPatch),
    /// Change TUN settings (the core is reconfigured and checked).
    SetTunSetting(SettingsPatch),
    /// Switch TUN on or off.
    ToggleTun(bool),
    /// Remove what TUN left behind and go direct.
    RecoverDirect,
    StartCore,
    StopCore,
    RestartCore,
    /// Look for a newer core than the installed version.
    CheckUpdate { current: Option<String> },
    UpgradeCore,
    CreateBackup,
    DeleteBackup(String),
    RestoreBackup(String),
    /// Write the shown audit records to a file.
    ExportAudit(String),
}

/// The URL delay tests fetch when none is configured.
pub open spec fn default_test_url() -> Seq<char> {
    "http://www.gstatic.com/generate_204"@
}

/// The URL delay tests fetch: the configured one, else the default.
pub open spec fn test_url_text(settings: Option<Settings>) -> Seq<char> {
    match settings {
        Some(s) => if s.test_url@.len() > 0 { s.test_url@ } else { default_test_url() },
        None => default_test_url(),
    }
}

/// `r` is the single command `c`.
pub open spec fn only(r: Seq<Command>, c: Command) -> bool {
    r.len() == 1 && r[0] == c
}

/// `r` holds the one command that carries the text `t`, as `f` tells.
pub open spec fn one_with(r: Seq<Command>, f: spec_fn(Command) -> bool) -> bool {
    r.len() == 1 && f(r[0])
}

/// The profile under the cursor.
pub open spec fn selected_profile(c: Client) -> Option<ProfileItem> {
    item_at(c.profiles.items@, c.profiles.list_state.selected)
}

/// `after` differs from `before` at most in the profiles page and the
/// dialogs.
pub open spec fn only_profiles_and_dialogs(before: Client, after: Client) -> bool {
    &&& after.current_page == before.current_page
    &&& after.home == before.home
    &&& after.proxies == before.proxies
    &&& after.connections == before.connections
    &&& after.logs == before.logs
    &&& after.settings == before.settings
    &&& after.rules == before.rules
    &&& after.message == before.message
    &&& after.show_help == before.show_help
    &&& after.lang == before.lang
    &&& after.traffic_subscription_started == before.traffic_subscription_started
}

/// `after` keeps every page of `before` except `page`, and the page shown,
/// the message, the help popup, the language and the traffic stream.
pub open spec fn kept_except(before: Client, after: Client, page: Page) -> bool {
    &&& after.current_page == before.current_page
    &&& (page != Page::Home ==> after.home == before.home)
    &&& (page != Page::Profiles ==> after.profiles == before.profiles)
    &&& (page != Page::Proxies ==> after.proxies == before.proxies)
    &&& (page != Page::Connections ==> after.connections == before.connections)
    &&& (page != Page::Logs ==> after.logs == before.logs)
    &&& (page != Page::Settings ==> after.settings == before.settings)
    &&& (page != Page::Rules ==> after.rules == before.rules)
    &&& after.message == before.message
    &&& after.show_help == before.show_help
    &&& after.lang == before.lang
    &&& after.traffic_subscription_started == before.traffic_subscription_started
}

/// `i` is an open dialog titled `title` for `purpose` holding `text`,
/// the cursor at its end.
pub open spec fn input_holding(i: Option<InputState>, title: Seq<char>, purpose: InputPurpose, text: Seq<char>) -> bool {
    i matches Some(d) && d.title@ == title && d.purpose == purpose && d.buffer@ == text && d.cursor == utf8_len(text)
}

/// `k` is an open confirmation titled `title` saying `message` for
/// `purpose`.
pub open spec fn confirm_holding(k: Option<ConfirmState>, title: Seq<char>, message: Seq<char>, purpose: ConfirmPurpose) -> bool {
    k matches Some(d) && d.title@ == title && d.message@ == message && d.purpose == purpose
}

/// The names of the groups.
pub open spec fn group_names(groups: Seq<Proxy>) -> Seq<Seq<char>> {
    groups.map_values(|g: Proxy| g.name@)
}

/// An input dialog titled `title` for `purpose` holding `text`, the
/// cursor at its end.
fn prefilled_input(title: &str, purpose: InputPurpose, text: &String) -> (r: InputState)
    ensures
        input_holding(Some(r), title@, purpose, text@),
{
    let mut input = InputState::new(title, purpose);
    input.buffer = owned(text.as_str());
    input.cursor = utf8_byte_len(text.as_str());
    input
}

/// `after` and `r` are what carrying out `a` leaves of `before`: the
/// dialog opened, or the change sent (a TUN change when `tun`).
pub open spec fn takes(a: SettingsAction, before: Client, after: Client, r: Seq<Command>, tun: bool) -> bool {
    &&& kept_except(before, after, Page::Home)
    &&& after.home == before.home
    &&& match a {
        SettingsAction::Confirm(k) => r.len() == 0 && after.confirm == Some(k) && after.input == before.input,
        SettingsAction::Input(i) => r.len() == 0 && after.input == Some(i) && after.confirm == before.confirm,
        SettingsAction::Apply(p) => only(r, if tun { Command::SetTunSetting(p) } else { Command::SetSetting(p) })
            && after == before,
        SettingsAction::Nothing => r.len() == 0 && after == before,
    }
}

/// `after` and `r` are what carrying out a submitted dialog's action `a`
/// leaves of `before` (whose dialog is already closed).
pub open spec fn applies_input(a: InputAction, before: Client, after: Client, r: Seq<Command>) -> bool {
    &&& after.current_page == before.current_page
    &&& after.input == before.input
    &&& after.confirm == before.confirm
    &&& after.show_help == before.show_help
    &&& after.lang == before.lang
    &&& after.home == before.home
    &&& after.profiles == before.profiles
    &&& after.connections == before.connections
    &&& after.settings == before.settings
    &&& match a {
        InputAction::ImportProfile(u) => only(r, Command::ImportProfile(u)) && (after.message matches Some(m) && m@
            == "importing "@ + u@ + "…"@) && after.rules == before.rules && after.logs == before.logs && after.proxies
            == before.proxies,
        InputAction::SetRulesFilter(f) => r.len() == 0 && after.rules.filter == f && after.rules.tab == before.rules.tab
            && after.rules.all_rules == before.rules.all_rules && after.message == before.message && after.logs
            == before.logs && after.proxies == before.proxies,
        InputAction::RenameProfile { uid, name } => only(r, Command::RenameProfile { uid, name }) && after == before,
        InputAction::SetProxiesFilter(f) => r.len() == 0 && after.proxies.filter == f && after.proxies.wf()
            && after.proxies.groups@.len() == before.proxies.groups@.len() && after.message == before.message
            && after.rules == before.rules && after.logs == before.logs,
        InputAction::SetLogsFilter(f) => r.len() == 0 && after.logs.filter == f && after.logs.tab == before.logs.tab
            && after.logs.app_lines == before.logs.app_lines && after.logs.core_lines == before.logs.core_lines
            && after.logs.audit_records == before.logs.audit_records && after.message == before.message && after.rules
            == before.rules && after.proxies == before.proxies,
        InputAction::SetSetting(p) => only(r, Command::SetSetting(p)) && after == before,
        InputAction::SetTunSetting(p) => only(r, Command::SetTunSetting(p)) && after == before,
        InputAction::Notify(m) => r.len() == 0 && after.message == Some(m) && after.rules == before.rules && after.logs
            == before.logs && after.proxies == before.proxies,
        InputAction::ExportAudit(path) => only(r, Command::ExportAudit(path)) && after == before,
        _ => r.len() == 0 && after == before,
    }
}

/// `r` is what accepting a confirmation for `purpose` sends; a deleted
/// profile carries whether it was the current one.
pub open spec fn accepted(purpose: ConfirmPurpose, current: Option<String>, r: Seq<Command>) -> bool {
    match purpose {
        ConfirmPurpose::DeleteProfile { uid } => r.len() == 1 && (r[0] matches Command::RemoveProfile { uid: u, was_current }
            && u == uid && was_current == (current matches Some(c) && c@ == uid@)),
        ConfirmPurpose::CloseAllConnections => only(r, Command::CloseAllConnections),
        ConfirmPurpose::StopCore => only(r, Command::StopCore),
        ConfirmPurpose::DeleteBackup { name } => only(r, Command::DeleteBackup(name)),
        ConfirmPurpose::RestoreBackup { name } => only(r, Command::RestoreBackup(name)),
        ConfirmPurpose::SetTun { enable } => only(r, Command::ToggleTun(enable)),
        ConfirmPurpose::EnableStrictRoute => r.len() == 1 && (r[0] matches Command::SetTunSetting(p) && unset_except(
            p,
            PatchField::StrictRoute,
        ) && p.strict_route == Some(true)),
        ConfirmPurpose::EnableAutoRedirect => r.len() == 1 && (r[0] matches Command::SetTunSetting(p) && unset_except(
            p,
            PatchField::AutoRedirect,
        ) && p.auto_redirect == Some(true)),
        ConfirmPurpose::CleanupTun => only(r, Command::RecoverDirect),
        ConfirmPurpose::UpgradeCore => only(r, Command::UpgradeCore),
    }
}

/// `e` on the TUN tab: what the row under the cursor asks for, as
/// `tun_row_action` says; nothing without a row.
pub open spec fn tun_edit(before: Client, after: Client, r: Seq<Command>) -> bool {
    match (match before.settings.list_state.selected {
        Some(i) => tun_row_at(i as int),
        None => None,
    }) {
        Some(row) => exists|a: SettingsAction|
            call_ensures(tun_row_action, (&before.settings.settings, row), a) && takes(a, before, after, r, true),
        None => r.len() == 0 && after == before,
    }
}

/// `e` on the Logs tab: the edit command of the row under the cursor goes
/// to the message bar once the helper's configuration is known; nothing
/// else changes.
pub open spec fn logs_edit(before: Client, after: Client, r: Seq<Command>) -> bool {
    &&& r.len() == 0
    &&& after == (Client { message: after.message, ..before })
    &&& match (match before.settings.list_state.selected {
        Some(i) => logs_row_at(i as int),
        None => None,
    }) {
        Some(row) => if before.settings.helper_config is Some {
            after.message matches Some(m) && m@ == logs_edit_hint(row)
        } else {
            after.message == before.message
        },
        None => after.message == before.message,
    }
}

/// A key of the profiles page (see `on_profiles_char`).
pub open spec fn profiles_char_effect(c: char, before: Client, after: Client, r: Seq<Command>) -> bool {
    &&& (only_profiles_and_dialogs(before, after))
    &&& (c == 'i' ==> r.len() == 0 && after.confirm == before.confirm && after.profiles
        == before.profiles && (after.input matches Some(i) && i.title@ == "Import profile URL"@
        && i.buffer@.len() == 0 && i.cursor == 0 && i.purpose == InputPurpose::ImportProfileUrl))
    &&& (c != 'i' && selected_profile(before) is None ==> r.len() == 0 && after == before)
    &&& (selected_profile(before) matches Some(p) ==> {
        &&& c == 'u' ==> (one_with(r, |x: Command| x matches Command::UpdateProfile(u) && u@ == p.uid@)
            && after.profiles.busy == ProfileBusy::Updating && (after.profiles.busy_uid matches Some(
            u,
        ) && u@ == p.uid@) && after.profiles.items == before.profiles.items
            && after.input == before.input && after.confirm == before.confirm)
        &&& c == 'd' ==> (r.len() == 0 && after.profiles == before.profiles && after.input
            == before.input && (after.confirm matches Some(k) && k.title@ == "Delete profile"@
            && k.message@ == "Delete '"@ + p.name@ + "'? This cannot be undone."@ && (k.purpose matches ConfirmPurpose::DeleteProfile {
            uid,
        } && uid@ == p.uid@)))
        &&& c == 'r' ==> (r.len() == 0 && after.profiles == before.profiles && after.confirm
            == before.confirm && (after.input matches Some(i) && i.title@ == "Rename profile"@
            && i.buffer@ == p.name@ && i.cursor == utf8_len(p.name@) && (i.purpose matches InputPurpose::RenameProfile {
            uid,
        } && uid@ == p.uid@)))
        &&& c == 'h' ==> (one_with(r, |x: Command| x matches Command::OpenHistory(u) && u@ == p.uid@)
            && after == before)
        &&& c == '[' ==> (one_with(r, |x: Command| x matches Command::MoveProfile { uid, up } && uid@ == p.uid@ && up)
            && after == before)
        &&& c == ']' ==> (one_with(r, |x: Command| x matches Command::MoveProfile { uid, up } && uid@ == p.uid@ && !up)
            && after == before)
        &&& !(c == 'i' || c == 'u' || c == 'd' || c == 'r' || c == 'h' || c == '[' || c == ']') ==> r.len() == 0
            && after == before
    })
}

/// A key of the connections page (see `on_connections_char`).
pub open spec fn connections_char_effect(c: char, before: Client, after: Client, r: Seq<Command>) -> bool {
    &&& (kept_except(before, after, Page::Connections))
    &&& (c == 'u' ==> r.len() == 0 && after.connections.sort == ConnectionsSort::Upload
        && after.input == before.input && after.confirm == before.confirm)
    &&& (c == 'd' ==> r.len() == 0 && after.connections.sort == ConnectionsSort::Download
        && after.input == before.input && after.confirm == before.confirm)
    &&& (c == 'x' ==> after == before && match before.connections.list_state.selected {
        Some(i) => if i < before.connections.connections@.len() {
            one_with(r, |x: Command| x matches Command::CloseConnection(id) && id@
                == before.connections.connections@[i as int].id@)
        } else {
            r.len() == 0
        },
        None => r.len() == 0
    })
    &&& (c == 'X' ==> r.len() == 0 && after.connections == before.connections && after.input
        == before.input && confirm_holding(
        after.confirm,
        "Close all connections"@,
        "Close every active connection?"@,
        ConfirmPurpose::CloseAllConnections,
    ))
    &&& (!(c == 'u' || c == 'd' || c == 'x' || c == 'X') ==> r.len() == 0 && after == before)
}

/// A key of the rules page (see `on_rules_char`).
pub open spec fn rules_char_effect(c: char, before: Client, after: Client, r: Seq<Command>) -> bool {
    &&& (kept_except(before, after, Page::Rules))
    &&& (after.rules == before.rules)
    &&& (after.confirm == before.confirm)
    &&& (c == 'f' ==> r.len() == 0 && input_holding(
        after.input,
        "Filter rules"@,
        InputPurpose::FilterRules,
        before.rules.filter@,
    ))
    &&& (c == 'u' && before.rules.tab == RulesTab::Providers ==> after.input == before.input
        && match before.rules.providers_state.selected {
        Some(i) => if i < before.rules.providers@.len() {
            one_with(r, |x: Command| x matches Command::UpdateRuleProvider(n) && n@
                == before.rules.providers@[i as int].0@)
        } else {
            r.len() == 0
        },
        None => r.len() == 0
    })
    &&& (!(c == 'f' || (c == 'u' && before.rules.tab == RulesTab::Providers)) ==> r.len() == 0
        && after == before)
}

/// A key of the logs page (see `on_logs_char`).
pub open spec fn logs_char_effect(c: char, before: Client, after: Client, r: Seq<Command>) -> bool {
    &&& (kept_except(before, after, Page::Logs))
    &&& (r.len() == 0)
    &&& (after.logs == before.logs)
    &&& (after.confirm == before.confirm)
    &&& (c == 'f' ==> input_holding(after.input, "Filter logs"@, InputPurpose::FilterLogs, before.logs.filter@))
    &&& (c != 'f' ==> after == before)
}

/// A key of the proxies page (see `on_proxies_char`).
pub open spec fn proxies_char_effect(c: char, before: Client, after: Client, r: Seq<Command>) -> bool {
    &&& (kept_except(before, after, Page::Proxies))
    &&& (after.proxies == before.proxies)
    &&& (after.confirm == before.confirm)
    &&& (c != 'f' ==> after.input == before.input)
    &&& (c == 't' && before.proxies.focus == ProxyFocus::Proxies ==> match member_at(
        before.proxies.groups@,
        before.proxies.group_list_state.selected,
        before.proxies.proxy_list_state.selected,
    ) {
        Some(n) => one_with(r, |x: Command| x matches Command::TestDelay { node, url } && node@ == n && url@
            == test_url_text(before.settings.settings)),
        None => r.len() == 0
    })
    &&& (c == 'T' ==> if before.proxies.groups@.len() == 0 {
        r.len() == 0
    } else {
        one_with(r, |x: Command| x matches Command::TestAllGroups { groups, url } && views(groups@) == group_names(before.proxies.groups@) && url@ == test_url_text(before.settings.settings))
    })
    &&& (c == 'd' ==> match group_at(before.proxies.groups@, before.proxies.group_list_state.selected) {
        Some(g) => one_with(r, |x: Command| x matches Command::ClearSelection(n) && n@ == g.name@),
        None => r.len() == 0
    })
    &&& (c == 'f' ==> r.len() == 0 && input_holding(
        after.input,
        "Filter nodes"@,
        InputPurpose::FilterProxies,
        before.proxies.filter@,
    ))
    &&& (!((c == 't' && before.proxies.focus == ProxyFocus::Proxies) || c == 'T' || c == 'd' || c == 'f')
        ==> r.len() == 0 && after == before)
}

/// A key of the settings page (see `on_settings_char`).
pub open spec fn settings_char_effect(c: char, before: Client, after: Client, r: Seq<Command>) -> bool {
    &&& (after.current_page == before.current_page)
    &&& (after.settings == before.settings)
    &&& (after.profiles == before.profiles)
    &&& (after.proxies == before.proxies)
    &&& (after.connections == before.connections)
    &&& (after.rules == before.rules)
    &&& (after.logs == before.logs)
    &&& (after.lang == before.lang)
    &&& (before.settings.tab == SettingsTab::General ==> if c == 'e' {
        match (match before.settings.list_state.selected {
            Some(i) => general_row_at(i as int),
            None => None,
        }) {
            Some(row) => exists|a: SettingsAction|
                call_ensures(general_row_action, (&before.settings.settings, row, before.lang), a) && takes(
                    a,
                    before,
                    after,
                    r,
                    false,
                ),
            None => r.len() == 0 && after == before,
        }
    } else {
        r.len() == 0 && after == before
    })
    &&& (before.settings.tab == SettingsTab::Tun ==> if c == 'e' {
        tun_edit(before, after, r)
    } else {
        r.len() == 0 && after == before
    })
    &&& (before.settings.tab == SettingsTab::Core ==> {
        &&& c == 's' ==> only(r, Command::StartCore) && after == before
        &&& c == 'S' ==> r.len() == 0 && confirm_holding(
            after.confirm,
            "Stop core"@,
            "Stop the proxy core?"@,
            ConfirmPurpose::StopCore,
        ) && after.message == before.message
        &&& c == 'r' ==> only(r, Command::RestartCore) && after == before
        &&& c == 'c' ==> only(r, (Command::CheckUpdate { current: before.settings.core_version })) && (after.message matches Some(m) && m@ == "checking for updates…"@) && after.confirm == before.confirm
        &&& c == 'i' ==> r.len() == 0 && confirm_holding(
            after.confirm,
            "Upgrade core"@,
            "Download the latest mihomo from GitHub and restart the core? (brief interruption)"@,
            ConfirmPurpose::UpgradeCore,
        ) && after.message == before.message
        &&& !(c == 's' || c == 'S' || c == 'r' || c == 'c' || c == 'i') ==> r.len() == 0 && after
            == before
    })
    &&& (before.settings.tab == SettingsTab::Logs ==> if c == 'e' {
        logs_edit(before, after, r)
    } else {
        r.len() == 0 && after == before
    })
    &&& (before.settings.tab == SettingsTab::Backup ==> {
        &&& c == 'b' ==> only(r, Command::CreateBackup) && after == before
        &&& c == 'd' ==> r.len() == 0 && after.message == before.message && match before.settings.backups_state.selected {
            Some(i) => if i < before.settings.backups@.len() {
                let name = before.settings.backups@[i as int].name@;
                after.confirm matches Some(k) && k.title@ == "Delete backup"@ && k.message@
                    == "Delete backup '"@ + name + "'?"@ && (k.purpose matches ConfirmPurpose::DeleteBackup {
                    name: n,
                } && n@ == name)
            } else {
                after == before
            },
            None => after == before,
        }
        &&& !(c == 'b' || c == 'd') ==> r.len() == 0 && after == before
    })
    &&& ((before.settings.tab == SettingsTab::Dns || before.settings.tab == SettingsTab::Service
        || before.settings.tab == SettingsTab::About) ==> r.len() == 0 && after == before)
}

/// A key for the input dialog (see `on_input_key`).
pub open spec fn input_key_effect(key: Key, mods: Modifiers, before: Client, after: Client, r: Seq<Command>) -> bool {
    &&& (after.proxies.wf())
    &&& (after.current_page == before.current_page)
    &&& (after.confirm == before.confirm)
    &&& (before.input is None ==> r.len() == 0 && after == before)
    &&& (before.input matches Some(i) ==> match input_key(key, mods) {
        InputKey::Clear => r.len() == 0 && (after.input matches Some(j) && j.buffer@.len() == 0 && j.cursor
            == 0 && j.purpose == i.purpose && j.title == i.title),
        InputKey::Cancel => r.len() == 0 && after.input is None,
        InputKey::Submit => after.input is None && exists|a: InputAction, t: &str|
            t@ == i.buffer@ && call_ensures(submit_input_action, (i.purpose, t), a) && applies_input(
                a,
                Client { input: None, ..before },
                after,
                r,
            ),
        InputKey::Insert(c) => r.len() == 0 && (after.input matches Some(j) && j.buffer@ == i.buffer@.insert(
            char_index_of(i.buffer@, i.cursor as int),
            c,
        ) && j.cursor == i.cursor + char_width(c) && j.purpose == i.purpose),
        InputKey::Left => r.len() == 0 && (after.input matches Some(j) && j.buffer == i.buffer && j.cursor
            == cursor_left(i.buffer@, i.cursor as int)),
        InputKey::Right => r.len() == 0 && (after.input matches Some(j) && j.buffer == i.buffer
            && j.cursor == cursor_right(i.buffer@, i.cursor as int)),
        InputKey::Backspace => r.len() == 0 && (after.input matches Some(j) && j.purpose == i.purpose),
        InputKey::Ignore => r.len() == 0 && after == before,
    })
}

/// A key for the confirmation dialog (see `on_confirm_key`).
pub open spec fn confirm_key_effect(key: Key, mods: Modifiers, before: Client, after: Client, r: Seq<Command>) -> bool {
    &&& (after.current_page == before.current_page)
    &&& (after.input == before.input)
    &&& (after.profiles == before.profiles)
    &&& (after.settings == before.settings)
    &&& (after.message == before.message)
    &&& (before.confirm is None ==> r.len() == 0 && after == before)
    &&& (before.confirm matches Some(k) ==> match route_confirm_key_spec(key, mods) {
        Some(true) => after.confirm is None && accepted(k.purpose, before.profiles.current, r),
        Some(false) => after.confirm is None && r.len() == 0,
        None => after == before && r.len() == 0,
    })
}

/// Enter (see `on_enter_key`).
pub open spec fn enter_effect(before: Client, after: Client, r: Seq<Command>) -> bool {
    &&& (after.current_page == before.current_page)
    &&& (before.current_page == Page::Profiles ==> match selected_profile(before) {
        Some(p) => one_with(r, |x: Command| x matches Command::SetCurrentProfile(u) && u@ == p.uid@)
            && after == (Client { message: after.message, ..before }) && (after.message matches Some(m) && m@ == "switching to "@ + p.uid@ + "…"@),
        None => r.len() == 0 && after == before,
    })
    &&& (before.current_page == Page::Proxies ==> after == before && if before.proxies.focus
        == ProxyFocus::Proxies {
        match member_at(
            before.proxies.groups@,
            before.proxies.group_list_state.selected,
            before.proxies.proxy_list_state.selected,
        ) {
            Some(n) => one_with(r, |x: Command| x matches Command::SelectNode { group, node } && node@ == n
                && group@ == group_at(before.proxies.groups@, before.proxies.group_list_state.selected).unwrap().name@),
            None => r.len() == 0,
        }
    } else {
        r.len() == 0
    })
    &&& (before.current_page == Page::Rules ==> after == before && if before.rules.tab
        == RulesTab::Rules {
        match before.rules.rules_state.selected {
            Some(i) => if i < before.rules.rules@.len() {
                let rule = before.rules.rules@[i as int];
                only(r, (Command::ToggleRule {
                    index: rule.index,
                    disabled: !(rule.extra matches Some(e) && e.disabled),
                }))
            } else {
                r.len() == 0
            },
            None => r.len() == 0,
        }
    } else {
        match before.rules.providers_state.selected {
            Some(i) => if i < before.rules.providers@.len() {
                one_with(r, |x: Command| x matches Command::UpdateRuleProvider(n) && n@
                    == before.rules.providers@[i as int].0@)
            } else {
                r.len() == 0
            },
            None => r.len() == 0,
        }
    })
    &&& (before.current_page == Page::Settings ==> {
        &&& before.settings.tab == SettingsTab::Tun ==> tun_edit(before, after, r)
        &&& before.settings.tab == SettingsTab::Logs ==> logs_edit(before, after, r)
        &&& before.settings.tab == SettingsTab::Backup ==> r.len() == 0 && match before.settings.backups_state.selected {
            Some(i) => if i < before.settings.backups@.len() {
                let name = before.settings.backups@[i as int].name@;
                after == (Client { confirm: after.confirm, ..before }) && (after.confirm matches Some(k) && k.title@ == "Restore backup"@ && k.message@ == "Restore '"@
                    + name + "'? This overwrites current profiles and settings."@ && (k.purpose matches ConfirmPurpose::RestoreBackup {
                    name: n,
                } && n@ == name))
            } else {
                after == before
            },
            None => after == before,
        }
        &&& !(before.settings.tab == SettingsTab::Tun || before.settings.tab == SettingsTab::Logs
            || before.settings.tab == SettingsTab::Backup) ==> r.len() == 0 && after == before
    })
    &&& ((before.current_page == Page::Home || before.current_page == Page::Connections
        || before.current_page == Page::Logs) ==> r.len() == 0 && after == before)
}

/// A character for the page shown (see `on_page_char`).
pub open spec fn page_char_effect(c: char, before: Client, after: Client, r: Seq<Command>) -> bool {
    &&& (after.current_page == before.current_page)
    &&& (before.current_page == Page::Profiles ==> profiles_char_effect(c, before, after, r))
    &&& (before.current_page == Page::Proxies ==> proxies_char_effect(c, before, after, r))
    &&& (before.current_page == Page::Connections ==> connections_char_effect(c, before, after, r))
    &&& (before.current_page == Page::Rules ==> rules_char_effect(c, before, after, r))
    &&& (before.current_page == Page::Logs ==> logs_char_effect(c, before, after, r))
    &&& (before.current_page == Page::Settings ==> settings_char_effect(c, before, after, r))
    &&& (before.current_page == Page::Home ==> r.len() == 0 && after == before)
}

/// What the client does with a key.
#[derive(Debug, Clone)]
pub enum Reaction {
    /// Quit the client.
    Quit,
    /// Send these requests.
    Send(Vec<Command>),
}

/// `r` sends `cmds`.
pub open spec fn sends(r: Reaction, cmds: Seq<Command>) -> bool {
    r matches Reaction::Send(v) && v@ == cmds
}

/// The fetches as requests.
pub open spec fn fetch_commands(f: Seq<Fetch>) -> Seq<Command> {
    f.map_values(|x: Fetch| Command::Fetch(x))
}

/// What a typed character does (see `on_char`).
pub open spec fn char_effect(c: char, viewport: usize, before: Client, after: Client, r: Reaction) -> bool {
    match char_route(c, before.show_help) {
        CharRoute::ToggleHelp => sends(r, Seq::empty()) && after == (Client { show_help: !before.show_help, ..before }),
        CharRoute::Quit => r is Quit && after == before,
        CharRoute::Move(k) => sends(r, Seq::empty()) && match k {
            Key::Down => only_current_page(before, after) && page_stepped(before, after, viewport, 1),
            Key::Up => only_current_page(before, after) && page_stepped(before, after, viewport, -1),
            Key::Left => left_effect(before, after),
            _ => right_effect(before, after),
        },
        CharRoute::SwitchPage(p) => after.current_page == p && same_pages(after, before) && same_chrome(after, before)
            && sends(r, fetch_commands(page_fetches(p, before.traffic_subscription_started))),
        CharRoute::PageChar(d) => r matches Reaction::Send(v) && page_char_effect(d, before, after, v@),
        CharRoute::Ignore => sends(r, Seq::empty()) && after == before,
    }
}

/// What a key does in the history view: without modifiers, Esc closes it,
/// the up and down arrows (or `k` and `j`) move in it, and Enter closes it
/// and restores the version under the cursor (nothing without one); any
/// other key does nothing. Nothing else of the client changes.
pub open spec fn history_key_effect(key: Key, mods: Modifiers, before: Client, after: Client, sent: Seq<Command>) -> bool {
    &&& after == (Client { history: after.history, ..before })
    &&& match before.history {
        None => after.history is None && sent.len() == 0,
        Some(h) => if mods != Modifiers::Plain {
            after.history == before.history && sent.len() == 0
        } else if key == Key::Esc {
            after.history is None && sent.len() == 0
        } else if key == Key::Up || key == Key::Char('k') {
            sent.len() == 0 && (after.history matches Some(g) && g.uid == h.uid && g.versions == h.versions
                && g.list_state == (if h.versions@.len() == 0 {
                h.list_state
            } else {
                selected_as(h.list_state, Some(row_above_or_first(h.list_state.selected, h.versions@.len() as int) as usize))
            }))
        } else if key == Key::Down || key == Key::Char('j') {
            sent.len() == 0 && (after.history matches Some(g) && g.uid == h.uid && g.versions == h.versions
                && g.list_state == (if h.versions@.len() == 0 {
                h.list_state
            } else {
                selected_as(h.list_state, Some(row_below(h.list_state.selected, h.versions@.len() as int) as usize))
            }))
        } else if key == Key::Enter {
            match version_at(h.versions@, h.list_state.selected) {
                Some(v) => after.history is None && sent.len() == 1 && (sent[0] matches Command::RestoreProfile {
                    uid,
                    version,
                } && uid@ == h.uid@ && version == v.version),
                None => after.history == before.history && sent.len() == 0,
            }
        } else {
            after.history == before.history && sent.len() == 0
        },
    }
}

/// The dialogs `c` has open.
pub open spec fn overlays_of(c: Client) -> Overlays {
    Overlays { help: c.show_help, confirm: c.confirm is Some, input: c.input is Some, history: c.history is Some }
}

/// An owned copy of a text.
fn owned(s: &str) -> (r: String)
    ensures
        r@ == s@,
{
    let mut r = String::new();
    r.append(s);
    r
}

impl Client {
    /// The URL delay tests fetch.
    pub fn test_url(&self) -> (r: String)
        ensures
            r@ == test_url_text(self.settings.settings),
    {
        match &self.settings.settings {
            Some(s) => {
                if s.test_url.unicode_len() > 0 {
                    owned(s.test_url.as_str())
                } else {
                    String::from_str("http://www.gstatic.com/generate_204")
                }
            },
            None => String::from_str("http://www.gstatic.com/generate_204"),
        }
    }

    /// A key of the profiles page: `i` opens the import dialog; on the
    /// profile under the cursor `u` updates it (marked busy), `d` asks
    /// before deleting it, `r` opens the rename dialog holding its name,
    /// `h` loads its history, `[` and `]` move it up and down. Other keys,
    /// and keys with no profile under the cursor, do nothing.
    pub fn on_profiles_char(&mut self, c: char) -> (r: Vec<Command>)
        ensures
            profiles_char_effect(c, *old(self), *final(self), r@),

    {
        if c == 'i' {
            self.input = Some(InputState::new("Import profile URL", InputPurpose::ImportProfileUrl));
            return Vec::new();
        }
        let (uid, name) = match self.profiles.selected() {
            Some(p) => (owned(p.uid.as_str()), owned(p.name.as_str())),
            None => return Vec::new(),
        };
        if c == 'u' {
            self.profiles.busy = ProfileBusy::Updating;
            self.profiles.busy_uid = Some(owned(uid.as_str()));
            vec![Command::UpdateProfile(uid)]
        } else if c == 'd' {
            let mut message = String::from_str("Delete '");
            message.append(name.as_str());
            message.append("'? This cannot be undone.");
            self.confirm = Some(ConfirmState::new("Delete profile", message.as_str(), ConfirmPurpose::DeleteProfile { uid }));
            Vec::new()
        } else if c == 'r' {
            let mut input = InputState::new("Rename profile", InputPurpose::RenameProfile { uid });
            input.cursor = utf8_byte_len(name.as_str());
            input.buffer = name;
            self.input = Some(input);
            Vec::new()
        } else if c == 'h' {
            vec![Command::OpenHistory(uid)]
        } else if c == '[' {
            vec![Command::MoveProfile { uid, up: true }]
        } else if c == ']' {
            vec![Command::MoveProfile { uid, up: false }]
        } else {
            Vec::new()
        }
    }

    /// A key of the connections page: `u` and `d` order by upload and
    /// download, `x` closes the connection under the cursor, `X` asks
    /// before closing every connection.
    pub fn on_connections_char(&mut self, c: char) -> (r: Vec<Command>)
        ensures
            connections_char_effect(c, *old(self), *final(self), r@),

    {
        if c == 'u' {
            self.connections.sort_by_upload();
            Vec::new()
        } else if c == 'd' {
            self.connections.sort_by_download();
            Vec::new()
        } else if c == 'x' {
            match self.connections.list_state.selected {
                Some(i) => {
                    if i < self.connections.connections.len() {
                        vec![Command::CloseConnection(owned(self.connections.connections[i].id.as_str()))]
                    } else {
                        Vec::new()
                    }
                },
                None => Vec::new(),
            }
        } else if c == 'X' {
            self.confirm = Some(
                ConfirmState::new(
                    "Close all connections",
                    "Close every active connection?",
                    ConfirmPurpose::CloseAllConnections,
                ),
            );
            Vec::new()
        } else {
            Vec::new()
        }
    }

    /// A key of the rules page: `f` opens the filter dialog holding the
    /// filter; on the providers tab `u` updates the provider under the
    /// cursor.
    pub fn on_rules_char(&mut self, c: char) -> (r: Vec<Command>)
        ensures
            rules_char_effect(c, *old(self), *final(self), r@),

    {
        if c == 'f' {
            self.input = Some(prefilled_input("Filter rules", InputPurpose::FilterRules, &self.rules.filter));
            Vec::new()
        } else if c == 'u' && self.rules.tab == RulesTab::Providers {
            match self.rules.selected_provider_name() {
                Some(name) => vec![Command::UpdateRuleProvider(name)],
                None => Vec::new(),
            }
        } else {
            Vec::new()
        }
    }

    /// A key of the logs page: `f` opens the filter dialog holding the
    /// filter.
    pub fn on_logs_char(&mut self, c: char) -> (r: Vec<Command>)
        ensures
            logs_char_effect(c, *old(self), *final(self), r@),

    {
        if c == 'f' {
            self.input = Some(prefilled_input("Filter logs", InputPurpose::FilterLogs, &self.logs.filter));
        }
        Vec::new()
    }

    /// A key of the proxies page: with the focus on the members `t` tests
    /// the delay of the member under the cursor; `T` tests every group;
    /// `d` drops the fixed choice of the group under the cursor; `f` opens
    /// the filter dialog holding the filter. Tests use the configured URL.
    pub fn on_proxies_char(&mut self, c: char) -> (r: Vec<Command>)
        ensures
            proxies_char_effect(c, *old(self), *final(self), r@),

    {
        if c == 't' && self.proxies.focus == ProxyFocus::Proxies {
            let url = self.test_url();
            match self.proxies.selected_node() {
                Some((_, node)) => vec![Command::TestDelay { node: owned(node), url }],
                None => Vec::new(),
            }
        } else if c == 'T' {
            if self.proxies.groups.len() == 0 {
                return Vec::new();
            }
            let url = self.test_url();
            let ghost gs = group_names(self.proxies.groups@);
            let mut names: Vec<String> = Vec::new();
            let mut i: usize = 0;
            while i < self.proxies.groups.len()
                invariant
                    gs == group_names(self.proxies.groups@),
                    i <= self.proxies.groups@.len(),
                    views(names@) == gs.take(i as int),
                decreases self.proxies.groups@.len() - i,
            {
                let ghost prev = names@;
                let name = owned(self.proxies.groups[i].name.as_str());
                assert(name@ == gs[i as int]);
                let ghost nm = name;
                names.push(name);
                assert(names@ == prev.push(nm));
                assert(views(prev).len() == prev.len());
                assert(gs.len() == self.proxies.groups@.len());
                assert(prev.len() == i);
                i = i + 1;
                assert(views(names@) =~= gs.take(i as int)) by {
                    assert(views(prev) == gs.take(i - 1));
                    assert forall|k: int| 0 <= k < i implies #[trigger] views(names@)[k] == gs.take(i as int)[k] by {
                        if k < i - 1 {
                            assert(names@[k] == prev[k]);
                            assert(views(prev)[k] == gs.take(i - 1)[k]);
                        }
                    }
                }
            }
            assert(gs.take(i as int) =~= gs);
            vec![Command::TestAllGroups { groups: names, url }]
        } else if c == 'd' {
            match self.proxies.selected_group_name_str() {
                Some(name) => vec![Command::ClearSelection(owned(name))],
                None => Vec::new(),
            }
        } else if c == 'f' {
            self.input = Some(prefilled_input("Filter nodes", InputPurpose::FilterProxies, &self.proxies.filter));
            Vec::new()
        } else {
            Vec::new()
        }
    }

    /// Carries out what a settings row asks for: opens its dialog, or
    /// sends its change (a TUN change when `tun`).
    fn take_settings_action(&mut self, action: SettingsAction, tun: bool) -> (r: Vec<Command>)
        ensures
            takes(action, *old(self), *final(self), r@, tun),
    {
        match action {
            SettingsAction::Confirm(k) => {
                self.confirm = Some(k);
                Vec::new()
            },
            SettingsAction::Input(i) => {
                self.input = Some(i);
                Vec::new()
            },
            SettingsAction::Apply(p) => {
                if tun {
                    vec![Command::SetTunSetting(p)]
                } else {
                    vec![Command::SetSetting(p)]
                }
            },
            SettingsAction::Nothing => Vec::new(),
        }
    }

    /// A key of the settings page. `e` edits the row under the cursor on
    /// the General and TUN tabs (as `general_row_action` and
    /// `tun_row_action` say) and shows the edit command of the Logs row
    /// once the helper's configuration is known. On the Core tab `s`
    /// starts, `S` asks before stopping, `r` restarts, `c` looks for an
    /// update and `i` asks before upgrading the core. On the Backup tab `b`
    /// creates a backup and `d` asks before deleting the one under the
    /// cursor.
    pub fn on_settings_char(&mut self, c: char) -> (r: Vec<Command>)
        ensures
            settings_char_effect(c, *old(self), *final(self), r@),

    {
        match self.settings.tab {
            SettingsTab::General => {
                if c != 'e' {
                    return Vec::new();
                }
                match self.settings.selected_general_row() {
                    Some(row) => {
                        let action = general_row_action(&self.settings.settings, row, self.lang);
                        assert(call_ensures(general_row_action, (&self.settings.settings, row, self.lang), action));
                        self.take_settings_action(action, false)
                    },
                    None => Vec::new(),
                }
            },
            SettingsTab::Tun => {
                if c != 'e' {
                    return Vec::new();
                }
                match self.settings.selected_tun_row() {
                    Some(row) => {
                        let action = tun_row_action(&self.settings.settings, row);
                        assert(call_ensures(tun_row_action, (&self.settings.settings, row), action));
                        self.take_settings_action(action, true)
                    },
                    None => Vec::new(),
                }
            },
            SettingsTab::Core => {
                if c == 's' {
                    vec![Command::StartCore]
                } else if c == 'S' {
                    self.confirm = Some(ConfirmState::new("Stop core", "Stop the proxy core?", ConfirmPurpose::StopCore));
                    Vec::new()
                } else if c == 'r' {
                    vec![Command::RestartCore]
                } else if c == 'c' {
                    self.message = Some(String::from_str("checking for updates…"));
                    vec![Command::CheckUpdate { current: self.settings.core_version.clone() }]
                } else if c == 'i' {
                    self.confirm = Some(
                        ConfirmState::new(
                            "Upgrade core",
                            "Download the latest mihomo from GitHub and restart the core? (brief interruption)",
                            ConfirmPurpose::UpgradeCore,
                        ),
                    );
                    Vec::new()
                } else {
                    Vec::new()
                }
            },
            SettingsTab::Logs => {
                if c == 'e' {
                    if let Some(row) = self.settings.selected_logs_row() {
                        if let Some(cfg) = &self.settings.helper_config {
                            self.message = Some(row.edit_hint(cfg));
                        }
                    }
                }
                Vec::new()
            },
            SettingsTab::Backup => {
                if c == 'b' {
                    vec![Command::CreateBackup]
                } else if c == 'd' {
                    let name = match self.settings.selected_backup() {
                        Some(b) => owned(b.name.as_str()),
                        None => return Vec::new(),
                    };
                    let mut message = String::from_str("Delete backup '");
                    message.append(name.as_str());
                    message.append("'?");
                    self.confirm = Some(ConfirmState::new("Delete backup", message.as_str(), ConfirmPurpose::DeleteBackup { name }));
                    Vec::new()
                } else {
                    Vec::new()
                }
            },
            _ => Vec::new(),
        }
    }

    /// Carries out the action of a submitted input dialog.
    fn apply_input_action(&mut self, action: InputAction) -> (r: Vec<Command>)
        requires
            old(self).proxies.wf(),
        ensures
            applies_input(action, *old(self), *final(self), r@),
    {
        match action {
            InputAction::ImportProfile(url) => {
                let mut m = String::from_str("importing ");
                m.append(url.as_str());
                m.append("…");
                self.message = Some(m);
                vec![Command::ImportProfile(url)]
            },
            InputAction::SetRulesFilter(f) => {
                self.rules.set_filter(f);
                Vec::new()
            },
            InputAction::RenameProfile { uid, name } => vec![Command::RenameProfile { uid, name }],
            InputAction::SetProxiesFilter(f) => {
                self.proxies.set_filter(f);
                Vec::new()
            },
            InputAction::SetLogsFilter(f) => {
                self.logs.set_filter(f);
                Vec::new()
            },
            InputAction::SetSetting(p) => vec![Command::SetSetting(p)],
            InputAction::SetTunSetting(p) => vec![Command::SetTunSetting(p)],
            InputAction::Notify(m) => {
                self.message = Some(m);
                Vec::new()
            },
            InputAction::ExportAudit(path) => vec![Command::ExportAudit(path)],
            _ => Vec::new(),
        }
    }

    /// A key for the open input dialog: Ctrl+U empties it, Esc closes it,
    /// Enter closes it and carries out what its text asks for (as
    /// `submit_input_action` says), the editing keys edit at the cursor.
    /// The cursor must sit on a character boundary.
    pub fn on_input_key(&mut self, key: Key, mods: Modifiers) -> (r: Vec<Command>)
        requires
            old(self).proxies.wf(),
            old(self).input matches Some(i) ==> is_boundary(i.buffer@, i.cursor as int) && crate::text::utf8_len(
                i.buffer@,
            ) + 4 <= usize::MAX,
        ensures
            input_key_effect(key, mods, *old(self), *final(self), r@),

    {
        let route = route_input_key(key, mods);
        match route {
            InputKey::Cancel => {
                if self.input.is_some() {
                    self.input = None;
                }
                Vec::new()
            },
            InputKey::Submit => {
                match self.input.take() {
                    Some(input) => {
                        let purpose = input.purpose;
                        let text = input.buffer;
                        let t = text.as_str();
                        let action = submit_input_action(purpose, t);
                        proof {
                            assert(call_ensures(submit_input_action, (purpose, t), action));
                        }
                        self.apply_input_action(action)
                    },
                    None => Vec::new(),
                }
            },
            InputKey::Ignore => Vec::new(),
            _ => {
                match &mut self.input {
                    Some(input) => {
                        match route {
                            InputKey::Clear => input.clear(),
                            InputKey::Backspace => input.backspace(),
                            InputKey::Left => input.move_left(),
                            InputKey::Right => input.move_right(),
                            InputKey::Insert(c) => input.push_char(c),
                            _ => {},
                        }
                    },
                    None => {},
                }
                Vec::new()
            },
        }
    }

    /// A key for the open confirmation: Enter closes it and sends what it
    /// was for, Esc closes it, other keys do nothing.
    pub fn on_confirm_key(&mut self, key: Key, mods: Modifiers) -> (r: Vec<Command>)
        ensures
            confirm_key_effect(key, mods, *old(self), *final(self), r@),

    {
        if self.confirm.is_none() {
            return Vec::new();
        }
        match route_confirm_key(key, mods) {
            Some(true) => {
                match self.confirm.take() {
                    Some(k) => self.accept(k.purpose),
                    None => Vec::new(),
                }
            },
            Some(false) => {
                self.confirm = None;
                Vec::new()
            },
            None => Vec::new(),
        }
    }

    /// What accepting a confirmation for `purpose` sends.
    fn accept(&self, purpose: ConfirmPurpose) -> (r: Vec<Command>)
        ensures
            accepted(purpose, self.profiles.current, r@),
    {
        match purpose {
            ConfirmPurpose::DeleteProfile { uid } => {
                let was_current = match &self.profiles.current {
                    Some(c) => crate::text::str_eq(c.as_str(), uid.as_str()),
                    None => false,
                };
                vec![Command::RemoveProfile { uid, was_current }]
            },
            ConfirmPurpose::CloseAllConnections => vec![Command::CloseAllConnections],
            ConfirmPurpose::StopCore => vec![Command::StopCore],
            ConfirmPurpose::DeleteBackup { name } => vec![Command::DeleteBackup(name)],
            ConfirmPurpose::RestoreBackup { name } => vec![Command::RestoreBackup(name)],
            ConfirmPurpose::SetTun { enable } => vec![Command::ToggleTun(enable)],
            ConfirmPurpose::EnableStrictRoute => {
                let mut p = SettingsPatch::default();
                p.strict_route = Some(true);
                vec![Command::SetTunSetting(p)]
            },
            ConfirmPurpose::EnableAutoRedirect => {
                let mut p = SettingsPatch::default();
                p.auto_redirect = Some(true);
                vec![Command::SetTunSetting(p)]
            },
            ConfirmPurpose::CleanupTun => vec![Command::RecoverDirect],
            ConfirmPurpose::UpgradeCore => vec![Command::UpgradeCore],
        }
    }

    /// Enter: on the profiles page makes the profile under the cursor the
    /// current one; on the proxies page, with the focus on the members,
    /// selects the member under the cursor in its group; on the rules page
    /// disables (or enables) the rule under the cursor, or updates the
    /// provider under the cursor; on the settings page edits the TUN row,
    /// asks before restoring the backup under the cursor, or shows the
    /// edit command of the Logs row.
    pub fn on_enter_key(&mut self) -> (r: Vec<Command>)
        ensures
            enter_effect(*old(self), *final(self), r@),

    {
        match self.current_page {
            Page::Profiles => {
                let uid = match self.profiles.selected() {
                    Some(p) => owned(p.uid.as_str()),
                    None => return Vec::new(),
                };
                let mut m = String::from_str("switching to ");
                m.append(uid.as_str());
                m.append("…");
                self.message = Some(m);
                vec![Command::SetCurrentProfile(uid)]
            },
            Page::Proxies => {
                if self.proxies.focus != ProxyFocus::Proxies {
                    return Vec::new();
                }
                match self.proxies.selected_node() {
                    Some((group, node)) => vec![Command::SelectNode { group: owned(group), node: owned(node) }],
                    None => Vec::new(),
                }
            },
            Page::Rules => {
                if self.rules.tab == RulesTab::Rules {
                    match self.rules.selected_rule() {
                        Some(rule) => {
                            let disabled = match &rule.extra {
                                Some(e) => !e.disabled,
                                None => true,
                            };
                            vec![Command::ToggleRule { index: rule.index, disabled }]
                        },
                        None => Vec::new(),
                    }
                } else {
                    match self.rules.selected_provider_name() {
                        Some(name) => vec![Command::UpdateRuleProvider(name)],
                        None => Vec::new(),
                    }
                }
            },
            Page::Settings => {
                match self.settings.tab {
                    SettingsTab::Tun => self.on_settings_char('e'),
                    SettingsTab::Logs => self.on_settings_char('e'),
                    SettingsTab::Backup => {
                        let name = match self.settings.selected_backup() {
                            Some(b) => owned(b.name.as_str()),
                            None => return Vec::new(),
                        };
                        let mut message = String::from_str("Restore '");
                        message.append(name.as_str());
                        message.append("'? This overwrites current profiles and settings.");
                        self.confirm = Some(
                            ConfirmState::new("Restore backup", message.as_str(), ConfirmPurpose::RestoreBackup { name }),
                        );
                        Vec::new()
                    },
                    _ => Vec::new(),
                }
            },
            _ => Vec::new(),
        }
    }

    /// Takes the helper's settings: the language follows them.
    pub fn apply_settings(&mut self, settings: Settings)
        ensures
            final(self).lang == parse_lang(settings.language@),
            final(self).settings.settings == Some(settings),
            final(self).settings.tab == old(self).settings.tab,
            final(self).current_page == old(self).current_page,
            same_pages(*final(self), Client { settings: final(self).settings, ..*old(self) }),
    {
        self.lang = Lang::parse(settings.language.as_str());
        self.settings.apply_settings(settings);
    }

    /// A character for the current page's own keys.
    pub fn on_page_char(&mut self, c: char) -> (r: Vec<Command>)
        ensures
            page_char_effect(c, *old(self), *final(self), r@),

    {
        match self.current_page {
            Page::Profiles => self.on_profiles_char(c),
            Page::Proxies => self.on_proxies_char(c),
            Page::Connections => self.on_connections_char(c),
            Page::Rules => self.on_rules_char(c),
            Page::Logs => self.on_logs_char(c),
            Page::Settings => self.on_settings_char(c),
            Page::Home => Vec::new(),
        }
    }

    /// Opens `page` and asks for what it needs.
    fn open_page(&mut self, page: Page) -> (r: Vec<Command>)
        ensures
            final(self).current_page == page,
            same_pages(*final(self), *old(self)),
            same_chrome(*final(self), *old(self)),
            r@ == fetch_commands(page_fetches(page, old(self).traffic_subscription_started)),
    {
        let fetches = self.switch_page(page);
        let mut r: Vec<Command> = Vec::new();
        let mut i: usize = 0;
        while i < fetches.len()
            invariant
                i <= fetches@.len(),
                r@ == fetch_commands(fetches@.take(i as int)),
            decreases fetches@.len() - i,
        {
            r.push(Command::Fetch(fetches[i]));
            i = i + 1;
            assert(r@ =~= fetch_commands(fetches@.take(i as int)));
        }
        assert(fetches@.take(i as int) =~= fetches@);
        r
    }

    /// A typed character: `?` shows or hides help, `q` quits, `j` `k` `h`
    /// `l` move as the arrows do, `1`..`7` open a page, and other
    /// characters go to the page shown unless help is shown (see
    /// `char_route`).
    pub fn on_char(&mut self, c: char, viewport: usize) -> (r: Reaction)
        requires
            c == 'j' ==> step_ok(*old(self), viewport, 1i32),
            c == 'k' ==> step_ok(*old(self), viewport, -1i32),
        ensures
            char_effect(c, viewport, *old(self), *final(self), r),
    {
        match route_char(c, self.show_help) {
            CharRoute::ToggleHelp => {
                self.toggle_help();
                Reaction::Send(Vec::new())
            },
            CharRoute::Quit => Reaction::Quit,
            CharRoute::Move(k) => {
                match k {
                    Key::Down => self.on_down_key(viewport),
                    Key::Up => self.on_up_key(viewport),
                    Key::Left => self.on_left_key(),
                    _ => self.on_right_key(),
                }
                Reaction::Send(Vec::new())
            },
            CharRoute::SwitchPage(p) => Reaction::Send(self.open_page(p)),
            CharRoute::PageChar(d) => Reaction::Send(self.on_page_char(d)),
            CharRoute::Ignore => Reaction::Send(Vec::new()),
        }
    }

    /// A key for the history view (see `history_key_effect`).
    pub fn on_history_key(&mut self, key: Key, mods: Modifiers) -> (r: Vec<Command>)
        ensures
            history_key_effect(key, mods, *old(self), *final(self), r@),
    {
        if mods != Modifiers::Plain {
            return Vec::new();
        }
        let mut view = match self.history.take() {
            Some(h) => h,
            None => {
                return Vec::new();
            },
        };
        if key == Key::Esc {
            return Vec::new();
        }
        if key == Key::Up || key == Key::Char('k') {
            view.on_up_key();
            self.history = Some(view);
            return Vec::new();
        }
        if key == Key::Down || key == Key::Char('j') {
            view.on_down_key();
            self.history = Some(view);
            return Vec::new();
        }
        if key == Key::Enter {
            match view.selected() {
                Some(v) => {
                    let uid = view.uid.clone();
                    let r = vec![Command::RestoreProfile { uid, version: v.version }];
                    assert(r@.len() == 1);
                    return r;
                },
                None => {
                    self.history = Some(view);
                    return Vec::new();
                },
            }
        }
        self.history = Some(view);
        Vec::new()
    }

    /// A key press: Ctrl+C quits; the help popup, the confirmation and
    /// the input dialog take keys while open (see `key_route`); plain keys
    /// go to the page shown: the arrows move, Tab switches, Esc goes back
    /// (quitting from home), Enter acts, characters as `on_char` says.
    pub fn on_key(&mut self, key: Key, mods: Modifiers, viewport: usize) -> (r: Reaction)
        requires
            old(self).proxies.wf(),
            old(self).input matches Some(i) ==> is_boundary(i.buffer@, i.cursor as int) && crate::text::utf8_len(
                i.buffer@,
            ) + 4 <= usize::MAX,
            step_ok(*old(self), viewport, 1i32),
            step_ok(*old(self), viewport, -1i32),
        ensures
            match key_route(key, mods, overlays_of(*old(self))) {
                KeyRoute::Terminate => r is Quit && *final(self) == *old(self),
                KeyRoute::CloseHelp => sends(r, Seq::empty()) && *final(self) == (Client { show_help: false, ..*old(self) }),
                KeyRoute::Confirm => r matches Reaction::Send(v) && confirm_key_effect(key, mods, *old(self), *final(self), v@),
                KeyRoute::Input => r matches Reaction::Send(v) && input_key_effect(key, mods, *old(self), *final(self), v@),
                KeyRoute::History => r matches Reaction::Send(v) && history_key_effect(key, mods, *old(self), *final(self), v@),
                KeyRoute::Page(k) => match k {
                    Key::Up => sends(r, Seq::empty()) && only_current_page(*old(self), *final(self)) && page_stepped(
                        *old(self),
                        *final(self),
                        viewport,
                        -1,
                    ),
                    Key::Down => sends(r, Seq::empty()) && only_current_page(*old(self), *final(self)) && page_stepped(
                        *old(self),
                        *final(self),
                        viewport,
                        1,
                    ),
                    Key::Left => sends(r, Seq::empty()) && left_effect(*old(self), *final(self)),
                    Key::Right => sends(r, Seq::empty()) && right_effect(*old(self), *final(self)),
                    Key::Tab => sends(r, Seq::empty()) && tab_effect(*old(self), *final(self)),
                    Key::Esc => exists|quit: bool| esc_effect(*old(self), *final(self), quit) && if quit {
                        r is Quit
                    } else {
                        sends(r, Seq::empty())
                    },
                    Key::Enter => r matches Reaction::Send(v) && enter_effect(*old(self), *final(self), v@),
                    Key::Char(c) => char_effect(c, viewport, *old(self), *final(self), r),
                    _ => sends(r, Seq::empty()) && *final(self) == *old(self),
                },
                _ => sends(r, Seq::empty()) && *final(self) == *old(self),
            },
    {
        let open = Overlays {
            help: self.show_help,
            confirm: self.confirm.is_some(),
            input: self.input.is_some(),
            history: self.history.is_some(),
        };
        match route_key(key, mods, open) {
            KeyRoute::Terminate => Reaction::Quit,
            KeyRoute::CloseHelp => {
                self.show_help = false;
                Reaction::Send(Vec::new())
            },
            KeyRoute::Confirm => Reaction::Send(self.on_confirm_key(key, mods)),
            KeyRoute::Input => Reaction::Send(self.on_input_key(key, mods)),
            KeyRoute::History => Reaction::Send(self.on_history_key(key, mods)),
            KeyRoute::Page(k) => match k {
                Key::Up => {
                    self.on_up_key(viewport);
                    Reaction::Send(Vec::new())
                },
                Key::Down => {
                    self.on_down_key(viewport);
                    Reaction::Send(Vec::new())
                },
                Key::Left => {
                    self.on_left_key();
                    Reaction::Send(Vec::new())
                },
                Key::Right => {
                    self.on_right_key();
                    Reaction::Send(Vec::new())
                },
                Key::Tab => {
                    self.on_tab_key();
                    Reaction::Send(Vec::new())
                },
                Key::Esc => {
                    if self.on_esc_key() {
                        Reaction::Quit
                    } else {
                        Reaction::Send(Vec::new())
                    }
                },
                Key::Enter => Reaction::Send(self.on_enter_key()),
                Key::Char(c) => self.on_char(c, viewport),
                _ => Reaction::Send(Vec::new()),
            },
            _ => Reaction::Send(Vec::new()),
        }
    }
}

/// What a key does in the confirmation dialog (see `route_confirm_key`).
pub open spec fn route_confirm_key_spec(key: Key, mods: Modifiers) -> Option<bool> {
    if mods == Modifiers::Plain && key == Key::Enter {
        Some(true)
    } else if mods == Modifiers::Plain && key == Key::Esc {
        Some(false)
    } else {
        None
    }
}

} // verus!

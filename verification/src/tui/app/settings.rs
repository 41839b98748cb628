//! Settings page state: General, DNS, TUN, Core, Service, Backup, Logs and
//! About tabs. General, DNS, TUN and Logs show editable rows; Backup shows
//! the helper's backups.

use vstd::prelude::*;
use crate::tui::models::{BackupItem, HelperConfig, Settings};
use crate::tui::nav::{
    clamp_cursor, clamped, follow_offset, move_in_range, move_list_cursor, selected_as, start_index,
    wrapped_index, ListCursor,
};

verus! {

/// A tab of the settings page, in display order.
#[derive(Debug, Clone, Copy, PartialEq, Eq, Structural)]
pub enum SettingsTab {
    General,
    Dns,
    Tun,
    Core,
    Service,
    Backup,
    Logs,
    About,
}

/// 0-based position of a tab.
pub open spec fn tab_position(t: SettingsTab) -> int {
    match t {
        SettingsTab::General => 0,
        SettingsTab::Dns => 1,
        SettingsTab::Tun => 2,
        SettingsTab::Core => 3,
        SettingsTab::Service => 4,
        SettingsTab::Backup => 5,
        SettingsTab::Logs => 6,
        SettingsTab::About => 7,
    }
}

/// The tab at a 0-based position (taken modulo 8).
pub open spec fn tab_at(i: int) -> SettingsTab {
    let j = i % 8;
    if j == 0 { SettingsTab::General }
    else if j == 1 { SettingsTab::Dns }
    else if j == 2 { SettingsTab::Tun }
    else if j == 3 { SettingsTab::Core }
    else if j == 4 { SettingsTab::Service }
    else if j == 5 { SettingsTab::Backup }
    else if j == 6 { SettingsTab::Logs }
    else { SettingsTab::About }
}

/// Number of editable rows a tab shows (0 for tabs without a row list).
pub open spec fn row_count(t: SettingsTab) -> int {
    match t {
        SettingsTab::General => 6,
        SettingsTab::Dns => 8,
        SettingsTab::Tun => 8,
        SettingsTab::Logs => 5,
        _ => 0,
    }
}

/// A row of the General tab.
#[derive(Debug, Clone, Copy, PartialEq, Eq, Structural)]
pub enum GeneralRow {
    MixedPort,
    /// Proxy mode: rule, global or direct, cycled.
    Mode,
    AutoUpdateHours,
    Language,
    Theme,
    TestUrl,
}

impl GeneralRow {
    /// Every row, in display order.
    pub const ALL: [GeneralRow; 6] = [
        GeneralRow::MixedPort,
        GeneralRow::Mode,
        GeneralRow::AutoUpdateHours,
        GeneralRow::Language,
        GeneralRow::Theme,
        GeneralRow::TestUrl,
    ];

    /// The label shown for this row.
    pub fn label(self) -> (r: &'static str)
        ensures
            r@ == general_label(self),
    {
        match self {
            GeneralRow::MixedPort => "Mixed port",
            GeneralRow::Mode => "Mode",
            GeneralRow::AutoUpdateHours => "Auto update (h)",
            GeneralRow::Language => "Language",
            GeneralRow::Theme => "Theme",
            GeneralRow::TestUrl => "Test URL",
        }
    }
}

/// The General row at a position.
pub open spec fn general_row_at(i: int) -> Option<GeneralRow> {
    if i == 0 { Some(GeneralRow::MixedPort) }
    else if i == 1 { Some(GeneralRow::Mode) }
    else if i == 2 { Some(GeneralRow::AutoUpdateHours) }
    else if i == 3 { Some(GeneralRow::Language) }
    else if i == 4 { Some(GeneralRow::Theme) }
    else if i == 5 { Some(GeneralRow::TestUrl) }
    else { None }
}

/// Label of a General row.
pub open spec fn general_label(r: GeneralRow) -> Seq<char> {
    match r {
        GeneralRow::MixedPort => "Mixed port"@,
        GeneralRow::Mode => "Mode"@,
        GeneralRow::AutoUpdateHours => "Auto update (h)"@,
        GeneralRow::Language => "Language"@,
        GeneralRow::Theme => "Theme"@,
        GeneralRow::TestUrl => "Test URL"@,
    }
}

/// A row of the DNS tab.
#[derive(Debug, Clone, Copy, PartialEq, Eq, Structural)]
pub enum DnsRow {
    /// fake-ip-filter-mode: blacklist, whitelist or rule, cycled.
    FakeIpFilterMode,
    /// fake-ip-filter domains (comma separated).
    FakeIpFilter,
    UseHosts,
    UseSystemHosts,
    /// Static hosts (`domain=ip`, comma separated).
    Hosts,
    /// nameserver-policy (`domain=dns1,dns2`).
    NameserverPolicy,
    Nameserver,
    DefaultNameserver,
}

impl DnsRow {
    /// Every row, in display order.
    pub const ALL: [DnsRow; 8] = [
        DnsRow::FakeIpFilterMode,
        DnsRow::FakeIpFilter,
        DnsRow::UseHosts,
        DnsRow::UseSystemHosts,
        DnsRow::Hosts,
        DnsRow::NameserverPolicy,
        DnsRow::Nameserver,
        DnsRow::DefaultNameserver,
    ];

    /// The label shown for this row.
    pub fn label(self) -> (r: &'static str)
        ensures
            r@ == dns_label(self),
    {
        match self {
            DnsRow::FakeIpFilterMode => "fake-ip-filter-mode",
            DnsRow::FakeIpFilter => "fake-ip-filter",
            DnsRow::UseHosts => "use-hosts",
            DnsRow::UseSystemHosts => "use-system-hosts",
            DnsRow::Hosts => "hosts",
            DnsRow::NameserverPolicy => "nameserver-policy",
            DnsRow::Nameserver => "nameserver",
            DnsRow::DefaultNameserver => "default-nameserver",
        }
    }
}

/// The DNS row at a position.
pub open spec fn dns_row_at(i: int) -> Option<DnsRow> {
    if i == 0 { Some(DnsRow::FakeIpFilterMode) }
    else if i == 1 { Some(DnsRow::FakeIpFilter) }
    else if i == 2 { Some(DnsRow::UseHosts) }
    else if i == 3 { Some(DnsRow::UseSystemHosts) }
    else if i == 4 { Some(DnsRow::Hosts) }
    else if i == 5 { Some(DnsRow::NameserverPolicy) }
    else if i == 6 { Some(DnsRow::Nameserver) }
    else if i == 7 { Some(DnsRow::DefaultNameserver) }
    else { None }
}

/// Label of a DNS row.
pub open spec fn dns_label(r: DnsRow) -> Seq<char> {
    match r {
        DnsRow::FakeIpFilterMode => "fake-ip-filter-mode"@,
        DnsRow::FakeIpFilter => "fake-ip-filter"@,
        DnsRow::UseHosts => "use-hosts"@,
        DnsRow::UseSystemHosts => "use-system-hosts"@,
        DnsRow::Hosts => "hosts"@,
        DnsRow::NameserverPolicy => "nameserver-policy"@,
        DnsRow::Nameserver => "nameserver"@,
        DnsRow::DefaultNameserver => "default-nameserver"@,
    }
}

/// A row of the TUN tab.
#[derive(Debug, Clone, Copy, PartialEq, Eq, Structural)]
pub enum TunRow {
    TunEnabled,
    TunStack,
    /// DNS mode under TUN: fake-ip or redir-host, cycled.
    TunDnsMode,
    DnsHijack,
    RouteExclude,
    StrictRoute,
    AutoRedirect,
    /// Emergency cleanup back to a direct connection.
    RecoverDirect,
}

impl TunRow {
    /// Every row, in display order.
    pub const ALL: [TunRow; 8] = [
        TunRow::TunEnabled,
        TunRow::TunStack,
        TunRow::TunDnsMode,
        TunRow::DnsHijack,
        TunRow::RouteExclude,
        TunRow::StrictRoute,
        TunRow::AutoRedirect,
        TunRow::RecoverDirect,
    ];

    /// The label shown for this row.
    pub fn label(self) -> (r: &'static str)
        ensures
            r@ == tun_label(self),
    {
        match self {
            TunRow::TunEnabled => "TUN",
            TunRow::TunStack => "TUN stack",
            TunRow::TunDnsMode => "DNS mode",
            TunRow::DnsHijack => "dns-hijack",
            TunRow::RouteExclude => "Route exclude",
            TunRow::StrictRoute => "strict-route",
            TunRow::AutoRedirect => "auto-redirect",
            TunRow::RecoverDirect => "Recover direct",
        }
    }
}

/// The TUN row at a position.
pub open spec fn tun_row_at(i: int) -> Option<TunRow> {
    if i == 0 { Some(TunRow::TunEnabled) }
    else if i == 1 { Some(TunRow::TunStack) }
    else if i == 2 { Some(TunRow::TunDnsMode) }
    else if i == 3 { Some(TunRow::DnsHijack) }
    else if i == 4 { Some(TunRow::RouteExclude) }
    else if i == 5 { Some(TunRow::StrictRoute) }
    else if i == 6 { Some(TunRow::AutoRedirect) }
    else if i == 7 { Some(TunRow::RecoverDirect) }
    else { None }
}

/// Label of a TUN row.
pub open spec fn tun_label(r: TunRow) -> Seq<char> {
    match r {
        TunRow::TunEnabled => "TUN"@,
        TunRow::TunStack => "TUN stack"@,
        TunRow::TunDnsMode => "DNS mode"@,
        TunRow::DnsHijack => "dns-hijack"@,
        TunRow::RouteExclude => "Route exclude"@,
        TunRow::StrictRoute => "strict-route"@,
        TunRow::AutoRedirect => "auto-redirect"@,
        TunRow::RecoverDirect => "Recover direct"@,
    }
}

/// A row of the Logs tab.
#[derive(Debug, Clone, Copy, PartialEq, Eq, Structural)]
pub enum LogsRow {
    CoreLogLevel,
    AppLogMaxBytes,
    AppLogKeep,
    AuditKeep,
    AuditDualWrite,
}

impl LogsRow {
    /// Every row, in display order.
    pub const ALL: [LogsRow; 5] = [
        LogsRow::CoreLogLevel,
        LogsRow::AppLogMaxBytes,
        LogsRow::AppLogKeep,
        LogsRow::AuditKeep,
        LogsRow::AuditDualWrite,
    ];

    /// The label shown for this row.
    pub fn label(self) -> (r: &'static str)
        ensures
            r@ == logs_label(self),
    {
        match self {
            LogsRow::CoreLogLevel => "Core log level",
            LogsRow::AppLogMaxBytes => "App log max (MiB)",
            LogsRow::AppLogKeep => "App log keep",
            LogsRow::AuditKeep => "Audit keep",
            LogsRow::AuditDualWrite => "Audit dual-write",
        }
    }

    /// The sudo command that edits this row in the helper's configuration
    /// file (the client never writes that file itself).
    pub fn edit_hint(self, _current: &HelperConfig) -> (r: String)
        ensures
            r@ == logs_edit_hint(self),
    {
        match self {
            LogsRow::CoreLogLevel => String::from_str(
                "sudo sed -i 's/log_level = \"info\"/log_level = \"debug\"/' /etc/clard/helper.toml",
            ),
            LogsRow::AppLogMaxBytes => String::from_str(
                "sudo sed -i 's/app_log_max_bytes = [0-9]*/app_log_max_bytes = 2097152/' /etc/clard/helper.toml",
            ),
            LogsRow::AppLogKeep => String::from_str(
                "sudo sed -i 's/app_log_keep = [0-9]*/app_log_keep = 5/' /etc/clard/helper.toml",
            ),
            LogsRow::AuditKeep => String::from_str(
                "sudo sed -i 's/audit_keep = [0-9]*/audit_keep = 5/' /etc/clard/helper.toml",
            ),
            LogsRow::AuditDualWrite => String::from_str(
                "sudo sed -i 's/audit_dual_write = true/audit_dual_write = false/' /etc/clard/helper.toml",
            ),
        }
    }
}

/// The Logs row at a position.
pub open spec fn logs_row_at(i: int) -> Option<LogsRow> {
    if i == 0 { Some(LogsRow::CoreLogLevel) }
    else if i == 1 { Some(LogsRow::AppLogMaxBytes) }
    else if i == 2 { Some(LogsRow::AppLogKeep) }
    else if i == 3 { Some(LogsRow::AuditKeep) }
    else if i == 4 { Some(LogsRow::AuditDualWrite) }
    else { None }
}

/// Label of a Logs row.
pub open spec fn logs_label(r: LogsRow) -> Seq<char> {
    match r {
        LogsRow::CoreLogLevel => "Core log level"@,
        LogsRow::AppLogMaxBytes => "App log max (MiB)"@,
        LogsRow::AppLogKeep => "App log keep"@,
        LogsRow::AuditKeep => "Audit keep"@,
        LogsRow::AuditDualWrite => "Audit dual-write"@,
    }
}

/// The edit command of a Logs row.
pub open spec fn logs_edit_hint(r: LogsRow) -> Seq<char> {
    match r {
        LogsRow::CoreLogLevel =>
            "sudo sed -i 's/log_level = \"info\"/log_level = \"debug\"/' /etc/clard/helper.toml"@,
        LogsRow::AppLogMaxBytes =>
            "sudo sed -i 's/app_log_max_bytes = [0-9]*/app_log_max_bytes = 2097152/' /etc/clard/helper.toml"@,
        LogsRow::AppLogKeep =>
            "sudo sed -i 's/app_log_keep = [0-9]*/app_log_keep = 5/' /etc/clard/helper.toml"@,
        LogsRow::AuditKeep =>
            "sudo sed -i 's/audit_keep = [0-9]*/audit_keep = 5/' /etc/clard/helper.toml"@,
        LogsRow::AuditDualWrite =>
            "sudo sed -i 's/audit_dual_write = true/audit_dual_write = false/' /etc/clard/helper.toml"@,
    }
}

/// Settings page state.
#[derive(Debug)]
pub struct SettingsState {
    pub tab: SettingsTab,
    pub settings: Option<Settings>,
    pub core_state: Option<String>,
    pub core_pid: Option<u32>,
    pub core_version: Option<String>,
    /// sha256 of the installed core.
    pub core_sha256: Option<String>,
    pub helper_version: Option<String>,
    pub helper_config: Option<HelperConfig>,
    pub backups: Vec<BackupItem>,
    /// Row cursor of the General, DNS, TUN and Logs tabs.
    pub list_state: ListCursor,
    /// Cursor of the backup table.
    pub backups_state: ListCursor,
}

/// The row cursor after switching to a tab: the first row on tabs with
/// rows, no row elsewhere.
pub open spec fn rows_cursor_for(c: ListCursor, tab: SettingsTab) -> ListCursor {
    selected_as(c, if row_count(tab) > 0 { Some(0usize) } else { None })
}

/// The backup cursor after switching to a tab: the first backup on the
/// Backup tab when there are backups, none otherwise.
pub open spec fn backups_cursor_for(c: ListCursor, tab: SettingsTab, n: int) -> ListCursor {
    if tab == SettingsTab::Backup && n > 0 {
        selected_as(selected_as(c, None), Some(0usize))
    } else {
        selected_as(c, None)
    }
}

impl SettingsState {
    /// The General tab with nothing loaded.
    pub fn new() -> (r: Self)
        ensures
            r.tab == SettingsTab::General,
            r.settings is None,
            r.core_state is None,
            r.core_pid is None,
            r.core_version is None,
            r.core_sha256 is None,
            r.helper_version is None,
            r.helper_config is None,
            r.backups@.len() == 0,
            r.list_state == (ListCursor { selected: None, offset: 0 }),
            r.backups_state == (ListCursor { selected: None, offset: 0 }),
    {
        SettingsState {
            tab: SettingsTab::General,
            settings: None,
            core_state: None,
            core_pid: None,
            core_version: None,
            core_sha256: None,
            helper_version: None,
            helper_config: None,
            backups: Vec::new(),
            list_state: ListCursor { selected: None, offset: 0 },
            backups_state: ListCursor { selected: None, offset: 0 },
        }
    }

    /// Stores the helper's settings.
    pub fn apply_settings(&mut self, settings: Settings)
        ensures
            final(self).settings == Some(settings),
            final(self).tab == old(self).tab,
            final(self).list_state == old(self).list_state,
            final(self).backups_state == old(self).backups_state,
            final(self).backups@ == old(self).backups@,
    {
        self.settings = Some(settings);
    }

    /// Stores a core status report.
    pub fn apply_core_status(
        &mut self,
        state: String,
        pid: Option<u32>,
        version: Option<String>,
        core_sha256: Option<String>,
    )
        ensures
            final(self).core_state == Some(state),
            final(self).core_pid == pid,
            final(self).core_version == version,
            final(self).core_sha256 == core_sha256,
            final(self).helper_version == old(self).helper_version,
            final(self).tab == old(self).tab,
            final(self).list_state == old(self).list_state,
            final(self).backups_state == old(self).backups_state,
    {
        self.core_state = Some(state);
        self.core_pid = pid;
        self.core_version = version;
        self.core_sha256 = core_sha256;
    }

    /// Replaces the backup list and fits the backup cursor to it.
    pub fn apply_backups(&mut self, backups: Vec<BackupItem>)
        ensures
            final(self).backups@ == backups@,
            final(self).backups_state == clamped(old(self).backups_state, backups@.len() as int),
            final(self).tab == old(self).tab,
            final(self).list_state == old(self).list_state,
    {
        self.backups = backups;
        clamp_cursor(&mut self.backups_state, self.backups.len());
    }

    /// Switches to the next tab (About wraps to General).
    pub fn next_tab(&mut self)
        ensures
            tab_position(final(self).tab) == (tab_position(old(self).tab) + 1) % 8,
            final(self).list_state == rows_cursor_for(old(self).list_state, final(self).tab),
            final(self).backups_state == backups_cursor_for(
                old(self).backups_state,
                final(self).tab,
                old(self).backups@.len() as int,
            ),
            final(self).backups@ == old(self).backups@,
    {
        let t = match self.tab {
            SettingsTab::General => SettingsTab::Dns,
            SettingsTab::Dns => SettingsTab::Tun,
            SettingsTab::Tun => SettingsTab::Core,
            SettingsTab::Core => SettingsTab::Service,
            SettingsTab::Service => SettingsTab::Backup,
            SettingsTab::Backup => SettingsTab::Logs,
            SettingsTab::Logs => SettingsTab::About,
            SettingsTab::About => SettingsTab::General,
        };
        self.set_tab(t);
    }

    /// Switches to the previous tab (General wraps to About).
    pub fn prev_tab(&mut self)
        ensures
            tab_position(final(self).tab) == (tab_position(old(self).tab) + 7) % 8,
            final(self).list_state == rows_cursor_for(old(self).list_state, final(self).tab),
            final(self).backups_state == backups_cursor_for(
                old(self).backups_state,
                final(self).tab,
                old(self).backups@.len() as int,
            ),
            final(self).backups@ == old(self).backups@,
    {
        let t = match self.tab {
            SettingsTab::General => SettingsTab::About,
            SettingsTab::Dns => SettingsTab::General,
            SettingsTab::Tun => SettingsTab::Dns,
            SettingsTab::Core => SettingsTab::Tun,
            SettingsTab::Service => SettingsTab::Core,
            SettingsTab::Backup => SettingsTab::Service,
            SettingsTab::Logs => SettingsTab::Backup,
            SettingsTab::About => SettingsTab::Logs,
        };
        self.set_tab(t);
    }

    /// Switches to `tab`: tabs with rows select their first row, the
    /// Backup tab selects its first backup when there is one.
    pub fn set_tab(&mut self, tab: SettingsTab)
        ensures
            final(self).tab == tab,
            final(self).list_state == rows_cursor_for(old(self).list_state, tab),
            final(self).backups_state == backups_cursor_for(
                old(self).backups_state,
                tab,
                old(self).backups@.len() as int,
            ),
            final(self).backups@ == old(self).backups@,
            final(self).settings == old(self).settings,
            final(self).helper_config == old(self).helper_config,
    {
        self.tab = tab;
        let has_rows = match tab {
            SettingsTab::General | SettingsTab::Dns | SettingsTab::Tun | SettingsTab::Logs => true,
            _ => false,
        };
        self.list_state.select(if has_rows { Some(0) } else { None });
        self.backups_state.select(None);
        if tab == SettingsTab::Backup && self.backups.len() > 0 {
            self.backups_state.select(Some(0));
        }
    }

    /// The General row under the cursor.
    pub fn selected_general_row(&self) -> (r: Option<GeneralRow>)
        ensures
            r == (match self.list_state.selected {
                Some(i) => general_row_at(i as int),
                None => None,
            }),
    {
        match self.list_state.selected {
            Some(i) => if i < 6 { Some(GeneralRow::ALL[i]) } else { None },
            None => None,
        }
    }

    /// The TUN row under the cursor.
    pub fn selected_tun_row(&self) -> (r: Option<TunRow>)
        ensures
            r == (match self.list_state.selected {
                Some(i) => tun_row_at(i as int),
                None => None,
            }),
    {
        match self.list_state.selected {
            Some(i) => if i < 8 { Some(TunRow::ALL[i]) } else { None },
            None => None,
        }
    }

    /// The DNS row under the cursor.
    pub fn selected_dns_row(&self) -> (r: Option<DnsRow>)
        ensures
            r == (match self.list_state.selected {
                Some(i) => dns_row_at(i as int),
                None => None,
            }),
    {
        match self.list_state.selected {
            Some(i) => if i < 8 { Some(DnsRow::ALL[i]) } else { None },
            None => None,
        }
    }

    /// Stores the helper's system configuration.
    pub fn apply_helper_config(&mut self, cfg: HelperConfig)
        ensures
            final(self).helper_config == Some(cfg),
            final(self).tab == old(self).tab,
            final(self).settings == old(self).settings,
            final(self).list_state == old(self).list_state,
            final(self).backups_state == old(self).backups_state,
    {
        self.helper_config = Some(cfg);
    }

    /// The Logs row under the cursor.
    pub fn selected_logs_row(&self) -> (r: Option<LogsRow>)
        ensures
            r == (match self.list_state.selected {
                Some(i) => logs_row_at(i as int),
                None => None,
            }),
    {
        match self.list_state.selected {
            Some(i) => if i < 5 { Some(LogsRow::ALL[i]) } else { None },
            None => None,
        }
    }

    /// The backup under the cursor.
    pub fn selected_backup(&self) -> (r: Option<&BackupItem>)
        ensures
            r == (match self.backups_state.selected {
                Some(i) => if i < self.backups@.len() { Some(&self.backups@[i as int]) } else { None },
                None => None,
            }),
    {
        match self.backups_state.selected {
            Some(i) => if i < self.backups.len() { Some(&self.backups[i]) } else { None },
            None => None,
        }
    }

    /// Moves down one row on tabs with rows, or one backup on the Backup
    /// tab, wrapping at the end and scrolling within `viewport` rows.
    pub fn on_down_key(&mut self, viewport: usize)
        requires
            row_count(old(self).tab) > 0 ==> move_in_range(
                old(self).list_state.selected,
                old(self).list_state.offset,
                row_count(old(self).tab) as usize,
                viewport,
                1i32,
            ),
            row_count(old(self).tab) == 0 && old(self).tab == SettingsTab::Backup ==> move_in_range(
                old(self).backups_state.selected,
                old(self).backups_state.offset,
                old(self).backups@.len() as usize,
                viewport,
                1i32,
            ),
        ensures
            final(self).tab == old(self).tab,
            final(self).backups@ == old(self).backups@,
            row_count(old(self).tab) > 0 ==> {
                let next = wrapped_index(start_index(old(self).list_state.selected), 1, row_count(old(self).tab));
                &&& final(self).list_state.selected == Some(next as usize)
                &&& final(self).list_state.offset == follow_offset(old(self).list_state.offset as int, viewport as int, next)
                &&& final(self).backups_state == old(self).backups_state
            },
            row_count(old(self).tab) == 0 ==> final(self).list_state == old(self).list_state,
            row_count(old(self).tab) == 0 && old(self).tab == SettingsTab::Backup && old(self).backups@.len() > 0 ==> {
                let next = wrapped_index(start_index(old(self).backups_state.selected), 1, old(self).backups@.len() as int);
                &&& final(self).backups_state.selected == Some(next as usize)
                &&& final(self).backups_state.offset == follow_offset(old(self).backups_state.offset as int, viewport as int, next)
            },
            row_count(old(self).tab) == 0 && !(old(self).tab == SettingsTab::Backup && old(self).backups@.len() > 0)
                ==> final(self).backups_state == old(self).backups_state,
    {
        self.move_rows(viewport, 1);
    }

    /// Moves up one row on tabs with rows, or one backup on the Backup tab,
    /// wrapping at the start and scrolling within `viewport` rows.
    pub fn on_up_key(&mut self, viewport: usize)
        requires
            row_count(old(self).tab) > 0 ==> move_in_range(
                old(self).list_state.selected,
                old(self).list_state.offset,
                row_count(old(self).tab) as usize,
                viewport,
                -1i32,
            ),
            row_count(old(self).tab) == 0 && old(self).tab == SettingsTab::Backup ==> move_in_range(
                old(self).backups_state.selected,
                old(self).backups_state.offset,
                old(self).backups@.len() as usize,
                viewport,
                -1i32,
            ),
        ensures
            final(self).tab == old(self).tab,
            final(self).backups@ == old(self).backups@,
            row_count(old(self).tab) > 0 ==> {
                let next = wrapped_index(start_index(old(self).list_state.selected), -1, row_count(old(self).tab));
                &&& final(self).list_state.selected == Some(next as usize)
                &&& final(self).list_state.offset == follow_offset(old(self).list_state.offset as int, viewport as int, next)
                &&& final(self).backups_state == old(self).backups_state
            },
            row_count(old(self).tab) == 0 ==> final(self).list_state == old(self).list_state,
            row_count(old(self).tab) == 0 && old(self).tab == SettingsTab::Backup && old(self).backups@.len() > 0 ==> {
                let next = wrapped_index(start_index(old(self).backups_state.selected), -1, old(self).backups@.len() as int);
                &&& final(self).backups_state.selected == Some(next as usize)
                &&& final(self).backups_state.offset == follow_offset(old(self).backups_state.offset as int, viewport as int, next)
            },
            row_count(old(self).tab) == 0 && !(old(self).tab == SettingsTab::Backup && old(self).backups@.len() > 0)
                ==> final(self).backups_state == old(self).backups_state,
    {
        self.move_rows(viewport, -1);
    }

    fn move_rows(&mut self, viewport: usize, step: i32)
        requires
            step == 1 || step == -1,
            row_count(old(self).tab) > 0 ==> move_in_range(
                old(self).list_state.selected,
                old(self).list_state.offset,
                row_count(old(self).tab) as usize,
                viewport,
                step,
            ),
            row_count(old(self).tab) == 0 && old(self).tab == SettingsTab::Backup ==> move_in_range(
                old(self).backups_state.selected,
                old(self).backups_state.offset,
                old(self).backups@.len() as usize,
                viewport,
                step,
            ),
        ensures
            final(self).tab == old(self).tab,
            final(self).backups@ == old(self).backups@,
            row_count(old(self).tab) > 0 ==> {
                let next = wrapped_index(start_index(old(self).list_state.selected), step as int, row_count(old(self).tab));
                &&& final(self).list_state.selected == Some(next as usize)
                &&& final(self).list_state.offset == follow_offset(old(self).list_state.offset as int, viewport as int, next)
                &&& final(self).backups_state == old(self).backups_state
            },
            row_count(old(self).tab) == 0 ==> final(self).list_state == old(self).list_state,
            row_count(old(self).tab) == 0 && old(self).tab == SettingsTab::Backup && old(self).backups@.len() > 0 ==> {
                let next = wrapped_index(start_index(old(self).backups_state.selected), step as int, old(self).backups@.len() as int);
                &&& final(self).backups_state.selected == Some(next as usize)
                &&& final(self).backups_state.offset == follow_offset(old(self).backups_state.offset as int, viewport as int, next)
            },
            row_count(old(self).tab) == 0 && !(old(self).tab == SettingsTab::Backup && old(self).backups@.len() > 0)
                ==> final(self).backups_state == old(self).backups_state,
    {
        let rows: usize = match self.tab {
            SettingsTab::General => 6,
            SettingsTab::Dns => 8,
            SettingsTab::Tun => 8,
            SettingsTab::Logs => 5,
            _ => 0,
        };
        if rows > 0 {
            move_list_cursor(&mut self.list_state, rows, viewport, step);
        } else if self.tab == SettingsTab::Backup && self.backups.len() > 0 {
            let n = self.backups.len();
            move_list_cursor(&mut self.backups_state, n, viewport, step);
        }
    }
}

/// Eight steps forward through the tabs come back to the starting tab,
/// and a step back undoes a step forward.
pub proof fn lemma_tab_cycle(t: SettingsTab)
    ensures
        tab_at(tab_position(t) + 8) == t,
        tab_at(((tab_position(t) + 1) % 8 + 7) % 8) == t,
        tab_at(tab_position(t)) == t,
{
}

} // verus!

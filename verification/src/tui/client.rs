//! The terminal client's state: the current page, the state of every page
//! (kept while other pages are shown), the dialogs, the message bar and
//! the language. What it asks of the helper and the controller is handed
//! back as a list of fetches for the caller to run.

use vstd::prelude::*;
use crate::tui::app::connections::ConnectionsState;
use crate::tui::app::home::HomeState;
use crate::tui::app::i18n::Lang;
use crate::tui::app::logs::LogsState;
use crate::tui::app::modal::{ConfirmState, InputState};
use crate::tui::app::page::Page;
use crate::tui::app::profiles::{ProfileBusy, ProfilesState};
use crate::tui::app::logs::LogsTab;
use crate::tui::app::proxy::{ProxyFocus, ProxyState};
use crate::tui::app::rules::{RulesState, RulesTab};
use crate::tui::app::settings::{backups_cursor_for, rows_cursor_for, tab_position, SettingsState, SettingsTab};
use crate::tui::nav::{
    follow_offset, move_in_range, row_above, row_above_or_first, row_below, selected_as, start_index, wrapped_index,
};
use crate::tui::app::proxy::stepped;
use crate::tui::app::settings::row_count;
use crate::app::proxy::{default_member_row, group_at};
use crate::groups::members;
use crate::tui::models::{ProfileItem, ProfileVersion};
use crate::tui::app::history::HistoryView;
use crate::tui::nav::ListCursor;

verus! {

/// Data the client asks for.
#[derive(Debug, Clone, Copy, PartialEq, Eq, Structural)]
pub enum Fetch {
    Profiles,
    Groups,
    Connections,
    /// Open the traffic stream (done once per run).
    SubscribeTraffic,
    Rules,
    RuleProviders,
    Logs,
    Audit,
    Settings,
    CoreStatus,
    Backups,
    HelperConfig,
    HelperVersion,
}

/// What entering a page fetches; the traffic stream is opened on the
/// first visit of the connections page only.
pub open spec fn page_fetches(page: Page, subscribed: bool) -> Seq<Fetch> {
    match page {
        Page::Profiles => seq![Fetch::Profiles],
        Page::Proxies => seq![Fetch::Groups],
        Page::Connections => if subscribed {
            seq![Fetch::Connections]
        } else {
            seq![Fetch::Connections, Fetch::SubscribeTraffic]
        },
        Page::Rules => seq![Fetch::Rules, Fetch::RuleProviders],
        Page::Logs => seq![Fetch::Logs, Fetch::Audit],
        Page::Settings => seq![Fetch::Settings, Fetch::CoreStatus, Fetch::Backups, Fetch::HelperConfig],
        Page::Home => seq![Fetch::CoreStatus, Fetch::HelperVersion],
    }
}

/// Switching to a page loads what each of its views shows: the rules and
/// the rule providers for the Rules page, the log lines and the audit
/// records for the Logs page, the settings, the core's state, the backups
/// and the helper's configuration for the Settings page, the core's state
/// and the helper's version for the home page, the profiles, the groups
/// and the connections for their pages; the traffic stream is opened only
/// while it is not open yet.
pub proof fn lemma_switch_loads_every_view(page: Page, subscribed: bool)
    ensures
        page == Page::Rules ==> page_fetches(page, subscribed).contains(Fetch::Rules) && page_fetches(
            page,
            subscribed,
        ).contains(Fetch::RuleProviders),
        page == Page::Logs ==> page_fetches(page, subscribed).contains(Fetch::Logs) && page_fetches(
            page,
            subscribed,
        ).contains(Fetch::Audit),
        page == Page::Settings ==> page_fetches(page, subscribed).contains(Fetch::Settings) && page_fetches(
            page,
            subscribed,
        ).contains(Fetch::CoreStatus) && page_fetches(page, subscribed).contains(Fetch::Backups) && page_fetches(
            page,
            subscribed,
        ).contains(Fetch::HelperConfig),
        page == Page::Home ==> page_fetches(page, subscribed).contains(Fetch::CoreStatus) && page_fetches(
            page,
            subscribed,
        ).contains(Fetch::HelperVersion),
        page == Page::Profiles ==> page_fetches(page, subscribed).contains(Fetch::Profiles),
        page == Page::Proxies ==> page_fetches(page, subscribed).contains(Fetch::Groups),
        page == Page::Connections ==> page_fetches(page, subscribed).contains(Fetch::Connections),
        page_fetches(page, subscribed).contains(Fetch::SubscribeTraffic) <==> (page == Page::Connections && !subscribed),
{
    let f = page_fetches(page, subscribed);
    match page {
        Page::Rules => {
            assert(f[0] == Fetch::Rules && f[1] == Fetch::RuleProviders);
        },
        Page::Logs => {
            assert(f[0] == Fetch::Logs && f[1] == Fetch::Audit);
        },
        Page::Settings => {
            assert(f[0] == Fetch::Settings && f[1] == Fetch::CoreStatus && f[2] == Fetch::Backups && f[3]
                == Fetch::HelperConfig);
        },
        Page::Home => {
            assert(f[0] == Fetch::CoreStatus && f[1] == Fetch::HelperVersion);
        },
        Page::Profiles => {
            assert(f[0] == Fetch::Profiles);
        },
        Page::Proxies => {
            assert(f[0] == Fetch::Groups);
        },
        Page::Connections => {
            assert(f[0] == Fetch::Connections);
            if !subscribed {
                assert(f[1] == Fetch::SubscribeTraffic);
            }
        },
    }
}

/// The terminal client.
pub struct Client {
    pub current_page: Page,
    pub home: HomeState,
    pub profiles: ProfilesState,
    pub proxies: ProxyState,
    pub connections: ConnectionsState,
    pub logs: LogsState,
    pub settings: SettingsState,
    pub rules: RulesState,
    /// The open input dialog.
    pub input: Option<InputState>,
    /// The open confirmation dialog.
    pub confirm: Option<ConfirmState>,
    /// The open history view of a profile.
    pub history: Option<HistoryView>,
    /// The message bar.
    pub message: Option<String>,
    pub show_help: bool,
    pub lang: Lang,
    /// Whether the traffic stream has been opened.
    pub traffic_subscription_started: bool,
}

/// `a` and `b` hold the same state for every page.
pub open spec fn same_pages(a: Client, b: Client) -> bool {
    &&& a.home == b.home
    &&& a.profiles == b.profiles
    &&& a.proxies == b.proxies
    &&& a.connections == b.connections
    &&& a.logs == b.logs
    &&& a.settings == b.settings
    &&& a.rules == b.rules
}

/// `a` and `b` have the same dialogs, message, help and language.
pub open spec fn same_chrome(a: Client, b: Client) -> bool {
    &&& a.input == b.input
    &&& a.confirm == b.confirm
    &&& a.history == b.history
    &&& a.message == b.message
    &&& a.show_help == b.show_help
    &&& a.lang == b.lang
}

/// The row a step of `dir` (1 down, -1 up) lands on in a list of `len`
/// rows that wraps at both ends.
pub open spec fn wrap_step(sel: Option<usize>, len: int, dir: int) -> int {
    if dir == 1 { row_below(sel, len) } else { row_above(sel, len) }
}

/// A step of `dir` can be taken on the page shown without leaving the
/// ranges the scrolling lists can hold.
pub open spec fn step_ok(c: Client, viewport: usize, dir: i32) -> bool {
    &&& c.current_page == Page::Proxies ==> {
        &&& c.proxies.focus == ProxyFocus::Groups ==> move_in_range(
            c.proxies.group_list_state.selected,
            c.proxies.group_list_state.offset,
            c.proxies.groups@.len() as usize,
            viewport,
            dir,
        )
        &&& c.proxies.focus == ProxyFocus::Proxies ==> match group_at(c.proxies.groups@, c.proxies.group_list_state.selected) {
            Some(g) => move_in_range(
                c.proxies.proxy_list_state.selected,
                c.proxies.proxy_list_state.offset,
                members(g).len() as usize,
                viewport,
                dir,
            ),
            None => true,
        }
    }
    &&& c.current_page == Page::Settings ==> {
        &&& row_count(c.settings.tab) > 0 ==> move_in_range(
            c.settings.list_state.selected,
            c.settings.list_state.offset,
            row_count(c.settings.tab) as usize,
            viewport,
            dir,
        )
        &&& row_count(c.settings.tab) == 0 && c.settings.tab == SettingsTab::Backup ==> move_in_range(
            c.settings.backups_state.selected,
            c.settings.backups_state.offset,
            c.settings.backups@.len() as usize,
            viewport,
            dir,
        )
    }
}

/// What a step of `dir` does to the page shown (see each page's
/// `on_down_key` and `on_up_key`): the cursor of its list moves one row,
/// wrapping, and the scrolling lists keep the row in view. The connections
/// table goes to its first row on a step up without a selection.
pub open spec fn page_stepped(before: Client, after: Client, viewport: usize, dir: int) -> bool {
    match before.current_page {
        Page::Profiles => after.profiles.items == before.profiles.items && after.profiles.list_state == if before.profiles.items@.len()
            == 0 {
            before.profiles.list_state
        } else {
            selected_as(
                before.profiles.list_state,
                Some(wrap_step(before.profiles.list_state.selected, before.profiles.items@.len() as int, dir) as usize),
            )
        },
        Page::Connections => after.connections.connections == before.connections.connections
            && after.connections.list_state == if before.connections.connections@.len() == 0 {
            before.connections.list_state
        } else {
            selected_as(
                before.connections.list_state,
                Some((if dir == 1 {
                    row_below(before.connections.list_state.selected, before.connections.connections@.len() as int)
                } else {
                    row_above_or_first(before.connections.list_state.selected, before.connections.connections@.len() as int)
                }) as usize),
            )
        },
        Page::Rules => after.rules.tab == before.rules.tab && if before.rules.tab == RulesTab::Rules {
            after.rules.providers_state == before.rules.providers_state && after.rules.rules_state == if before.rules.rules@.len()
                == 0 {
                before.rules.rules_state
            } else {
                selected_as(
                    before.rules.rules_state,
                    Some(wrap_step(before.rules.rules_state.selected, before.rules.rules@.len() as int, dir) as usize),
                )
            }
        } else {
            after.rules.rules_state == before.rules.rules_state && after.rules.providers_state
                == if before.rules.providers@.len() == 0 {
                before.rules.providers_state
            } else {
                selected_as(
                    before.rules.providers_state,
                    Some(wrap_step(before.rules.providers_state.selected, before.rules.providers@.len() as int, dir) as usize),
                )
            }
        },
        Page::Logs => after.logs.tab == before.logs.tab && after.logs.filter == before.logs.filter && if before.logs.shown_count()
            == 0 {
            after.logs.lines_state == before.logs.lines_state && after.logs.table_state == before.logs.table_state
        } else if before.logs.tab == LogsTab::Audit {
            after.logs.lines_state == before.logs.lines_state && after.logs.table_state == selected_as(
                before.logs.table_state,
                Some(wrap_step(before.logs.table_state.selected, before.logs.shown_count(), dir) as usize),
            )
        } else {
            after.logs.table_state == before.logs.table_state && after.logs.lines_state == selected_as(
                before.logs.lines_state,
                Some(wrap_step(before.logs.lines_state.selected, before.logs.shown_count(), dir) as usize),
            )
        },
        Page::Settings => {
            &&& after.settings.tab == before.settings.tab
            &&& after.settings.backups@ == before.settings.backups@
            &&& row_count(before.settings.tab) > 0 ==> {
                let next = wrapped_index(start_index(before.settings.list_state.selected), dir, row_count(before.settings.tab));
                &&& after.settings.list_state.selected == Some(next as usize)
                &&& after.settings.list_state.offset == follow_offset(before.settings.list_state.offset as int, viewport as int, next)
                &&& after.settings.backups_state == before.settings.backups_state
            }
            &&& row_count(before.settings.tab) == 0 ==> after.settings.list_state == before.settings.list_state
            &&& row_count(before.settings.tab) == 0 && before.settings.tab == SettingsTab::Backup
                && before.settings.backups@.len() > 0 ==> {
                let next = wrapped_index(start_index(before.settings.backups_state.selected), dir, before.settings.backups@.len() as int);
                &&& after.settings.backups_state.selected == Some(next as usize)
                &&& after.settings.backups_state.offset == follow_offset(
                    before.settings.backups_state.offset as int,
                    viewport as int,
                    next,
                )
            }
            &&& row_count(before.settings.tab) == 0 && !(before.settings.tab == SettingsTab::Backup
                && before.settings.backups@.len() > 0) ==> after.settings.backups_state == before.settings.backups_state
        },
        Page::Proxies => {
            &&& after.proxies.groups == before.proxies.groups
            &&& after.proxies.focus == before.proxies.focus
            &&& after.proxies.filter == before.proxies.filter
            &&& before.proxies.focus == ProxyFocus::Groups ==> if before.proxies.groups@.len() == 0 {
                after.proxies.group_list_state == before.proxies.group_list_state
                    && after.proxies.proxy_list_state == before.proxies.proxy_list_state
            } else {
                stepped(
                    after.proxies.group_list_state,
                    before.proxies.group_list_state,
                    before.proxies.groups@.len() as int,
                    viewport as int,
                    dir,
                ) && after.proxies.proxy_list_state == selected_as(
                    before.proxies.proxy_list_state,
                    default_member_row(before.proxies.groups@, after.proxies.group_list_state.selected.unwrap()),
                )
            }
            &&& before.proxies.focus == ProxyFocus::Proxies ==> after.proxies.group_list_state
                == before.proxies.group_list_state && match group_at(
                before.proxies.groups@,
                before.proxies.group_list_state.selected,
            ) {
                Some(g) => if g.all is Some && members(g).len() > 0 {
                    stepped(
                        after.proxies.proxy_list_state,
                        before.proxies.proxy_list_state,
                        members(g).len() as int,
                        viewport as int,
                        dir,
                    )
                } else {
                    after.proxies.proxy_list_state == before.proxies.proxy_list_state
                },
                None => after.proxies.proxy_list_state == before.proxies.proxy_list_state,
            }
        },
        Page::Home => after == before,
    }
}

/// Only the page shown may differ between `before` and `after`.
pub open spec fn only_current_page(before: Client, after: Client) -> bool {
    &&& after.current_page == before.current_page
    &&& same_chrome(after, before)
    &&& after.traffic_subscription_started == before.traffic_subscription_started
    &&& (before.current_page != Page::Home ==> after.home == before.home)
    &&& (before.current_page != Page::Profiles ==> after.profiles == before.profiles)
    &&& (before.current_page != Page::Proxies ==> after.proxies == before.proxies)
    &&& (before.current_page != Page::Connections ==> after.connections == before.connections)
    &&& (before.current_page != Page::Logs ==> after.logs == before.logs)
    &&& (before.current_page != Page::Settings ==> after.settings == before.settings)
    &&& (before.current_page != Page::Rules ==> after.rules == before.rules)
}

/// Esc (see `on_esc_key`).
pub open spec fn esc_effect(before: Client, after: Client, quit: bool) -> bool {
    &&& (same_pages(after, before))
    &&& (after.input == before.input)
    &&& (after.confirm == before.confirm)
    &&& (after.message == before.message)
    &&& (after.traffic_subscription_started == before.traffic_subscription_started)
    &&& (before.show_help ==> !quit && !after.show_help && after.current_page == before.current_page)
    &&& (!before.show_help ==> !after.show_help && quit == (before.current_page == Page::Home)
        && after.current_page == Page::Home)
}

/// Tab (see `on_tab_key`).
pub open spec fn tab_effect(before: Client, after: Client) -> bool {
    &&& (after.current_page == before.current_page)
    &&& (same_chrome(after, before))
    &&& (after.home == before.home)
    &&& (after.profiles == before.profiles)
    &&& (after.connections == before.connections)
    &&& (before.current_page != Page::Proxies ==> after.proxies == before.proxies)
    &&& (before.current_page != Page::Rules ==> after.rules == before.rules)
    &&& (before.current_page != Page::Logs ==> after.logs == before.logs)
    &&& (before.current_page != Page::Settings ==> after.settings == before.settings)
    &&& (before.current_page == Page::Proxies ==> {
        &&& after.proxies.focus == (if before.proxies.focus == ProxyFocus::Groups {
            ProxyFocus::Proxies
        } else {
            ProxyFocus::Groups
        })
        &&& after.proxies.groups == before.proxies.groups
        &&& after.proxies.group_list_state == before.proxies.group_list_state
        &&& after.proxies.proxy_list_state == (if before.proxies.focus == ProxyFocus::Groups
            && before.proxies.proxy_list_state.selected is None {
            selected_as(before.proxies.proxy_list_state, Some(0))
        } else {
            before.proxies.proxy_list_state
        })
    })
    &&& (before.current_page == Page::Rules ==> {
        &&& after.rules.tab == (if before.rules.tab == RulesTab::Rules {
            RulesTab::Providers
        } else {
            RulesTab::Rules
        })
        &&& after.rules.rules == before.rules.rules
        &&& after.rules.rules_state == before.rules.rules_state
        &&& after.rules.providers_state == before.rules.providers_state
    })
    &&& (before.current_page == Page::Logs ==> {
        &&& after.logs.tab == match before.logs.tab {
            LogsTab::App => LogsTab::Core,
            LogsTab::Core => LogsTab::Audit,
            LogsTab::Audit => LogsTab::App,
        }
        &&& after.logs.lines_state == selected_as(before.logs.lines_state, None)
        &&& after.logs.table_state == selected_as(before.logs.table_state, None)
        &&& after.logs.filter == before.logs.filter
    })
    &&& (before.current_page == Page::Settings ==> {
        &&& tab_position(after.settings.tab) == (tab_position(before.settings.tab) + 1) % 8
        &&& after.settings.list_state == rows_cursor_for(before.settings.list_state, after.settings.tab)
        &&& after.settings.backups_state == backups_cursor_for(
            before.settings.backups_state,
            after.settings.tab,
            before.settings.backups@.len() as int,
        )
    })
}

/// Left arrow (see `on_left_key`).
pub open spec fn left_effect(before: Client, after: Client) -> bool {
    &&& (after.current_page == before.current_page)
    &&& (same_chrome(after, before))
    &&& (before.current_page != Page::Proxies ==> same_pages(after, before))
    &&& (before.current_page == Page::Proxies ==> {
        &&& after.proxies.focus == ProxyFocus::Groups
        &&& after.proxies.groups == before.proxies.groups
        &&& after.proxies.group_list_state == before.proxies.group_list_state
        &&& after.proxies.proxy_list_state == before.proxies.proxy_list_state
        &&& after.profiles == before.profiles
        &&& after.connections == before.connections
        &&& after.rules == before.rules
        &&& after.logs == before.logs
        &&& after.settings == before.settings
    })
}

/// Right arrow (see `on_right_key`).
pub open spec fn right_effect(before: Client, after: Client) -> bool {
    &&& (after.current_page == before.current_page)
    &&& (same_chrome(after, before))
    &&& (before.current_page != Page::Proxies ==> same_pages(after, before))
    &&& (before.current_page == Page::Proxies ==> {
        &&& after.proxies.focus == ProxyFocus::Proxies
        &&& after.proxies.groups == before.proxies.groups
        &&& after.proxies.group_list_state == before.proxies.group_list_state
        &&& after.proxies.proxy_list_state == (if before.proxies.proxy_list_state.selected is None {
            selected_as(before.proxies.proxy_list_state, Some(0))
        } else {
            before.proxies.proxy_list_state
        })
        &&& after.profiles == before.profiles
        &&& after.connections == before.connections
        &&& after.rules == before.rules
        &&& after.logs == before.logs
        &&& after.settings == before.settings
    })
}

impl Client {
    /// A client on the home page with fresh page states, no dialog, no
    /// message, help hidden, in English, the traffic stream not opened.
    pub fn init() -> (r: Self)
        ensures
            r.current_page == Page::Home,
            r.input is None,
            r.confirm is None,
            r.history is None,
            r.message is None,
            !r.show_help,
            r.lang == Lang::En,
            !r.traffic_subscription_started,
            r.proxies.wf(),
    {
        Client {
            current_page: Page::Home,
            home: HomeState::default(),
            profiles: ProfilesState::new(),
            proxies: ProxyState::new(),
            connections: ConnectionsState::new(),
            logs: LogsState::new(),
            settings: SettingsState::new(),
            rules: RulesState::new(),
            input: None,
            confirm: None,
            history: None,
            message: None,
            show_help: false,
            lang: Lang::En,
            traffic_subscription_started: false,
        }
    }

    /// Opens the history view of profile `uid` with its versions.
    pub fn apply_history(&mut self, uid: String, versions: Vec<ProfileVersion>)
        ensures
            final(self).history matches Some(h) && h.uid == uid && h.versions@ == versions@
                && h.list_state == (ListCursor {
                selected: if versions@.len() > 0 { Some(0usize) } else { None },
                offset: 0,
            }),
            *final(self) == (Client { history: final(self).history, ..*old(self) }),
    {
        self.history = Some(HistoryView::new(uid, versions));
    }

    /// Shows `page` and returns what it needs fetched. Every page keeps its
    /// state, so switching away and back shows it as it was.
    pub fn switch_page(&mut self, page: Page) -> (r: Vec<Fetch>)
        ensures
            final(self).current_page == page,
            same_pages(*final(self), *old(self)),
            same_chrome(*final(self), *old(self)),
            r@ == page_fetches(page, old(self).traffic_subscription_started),
            final(self).traffic_subscription_started == (old(self).traffic_subscription_started || page
                == Page::Connections),
    {
        self.current_page = page;
        let r: Vec<Fetch> = match page {
            Page::Profiles => vec![Fetch::Profiles],
            Page::Proxies => vec![Fetch::Groups],
            Page::Connections => {
                if self.traffic_subscription_started {
                    vec![Fetch::Connections]
                } else {
                    self.traffic_subscription_started = true;
                    vec![Fetch::Connections, Fetch::SubscribeTraffic]
                }
            },
            Page::Rules => vec![Fetch::Rules, Fetch::RuleProviders],
            Page::Logs => vec![Fetch::Logs, Fetch::Audit],
            Page::Settings => vec![Fetch::Settings, Fetch::CoreStatus, Fetch::Backups, Fetch::HelperConfig],
            Page::Home => vec![Fetch::CoreStatus, Fetch::HelperVersion],
        };
        assert(r@ =~= page_fetches(page, old(self).traffic_subscription_started));
        r
    }

    /// Esc: closes the help popup if shown; else quits from the home page
    /// (`true`) and goes back home from any other page.
    pub fn on_esc_key(&mut self) -> (quit: bool)
        ensures
            esc_effect(*old(self), *final(self), quit),

    {
        if self.show_help {
            self.show_help = false;
            return false;
        }
        if self.current_page == Page::Home {
            true
        } else {
            self.current_page = Page::Home;
            false
        }
    }

    /// `?`: shows or hides the help popup.
    pub fn toggle_help(&mut self)
        ensures
            *final(self) == (Client { show_help: !old(self).show_help, ..*old(self) }),
    {
        self.show_help = !self.show_help;
    }

    /// Puts a message (a notice or an error) on the message bar.
    pub fn show_message(&mut self, message: String)
        ensures
            final(self).message == Some(message),
            final(self).current_page == old(self).current_page,
            same_pages(*final(self), *old(self)),
            final(self).input == old(self).input,
            final(self).confirm == old(self).confirm,
            final(self).show_help == old(self).show_help,
    {
        self.message = Some(message);
    }

    /// Takes a new profile list: the list and the current profile are
    /// replaced (see `ProfilesState::update_list`) and no profile is busy
    /// any longer.
    pub fn apply_profiles(&mut self, current: Option<String>, items: Vec<ProfileItem>)
        ensures
            final(self).profiles.items@ == items@,
            final(self).profiles.current == current,
            final(self).profiles.busy == ProfileBusy::Idle,
            final(self).profiles.busy_uid is None,
            final(self).current_page == old(self).current_page,
            final(self).proxies == old(self).proxies,
            final(self).connections == old(self).connections,
            final(self).settings == old(self).settings,
            same_chrome(*final(self), *old(self)),
    {
        self.profiles.update_list(current, items);
        self.profiles.busy = ProfileBusy::Idle;
        self.profiles.busy_uid = None;
    }

    /// Tab: on the proxies page the focus moves between the groups and the
    /// members; the rules, logs and settings pages switch to their next
    /// tab; other pages ignore it.
    pub fn on_tab_key(&mut self)
        ensures
            tab_effect(*old(self), *final(self)),

    {
        match self.current_page {
            Page::Proxies => {
                if self.proxies.focus == ProxyFocus::Groups {
                    self.proxies.on_right_key();
                } else {
                    self.proxies.on_left_key();
                }
            },
            Page::Rules => self.rules.toggle_tab(),
            Page::Logs => self.logs.next_tab(),
            Page::Settings => self.settings.next_tab(),
            _ => {},
        }
    }

    /// Left arrow: moves the focus of the proxies page to the groups;
    /// other pages ignore it.
    pub fn on_left_key(&mut self)
        ensures
            left_effect(*old(self), *final(self)),

    {
        if self.current_page == Page::Proxies {
            self.proxies.on_left_key();
        }
    }

    /// Right arrow: moves the focus of the proxies page to the members,
    /// selecting the first if none is; other pages ignore it.
    pub fn on_right_key(&mut self)
        ensures
            right_effect(*old(self), *final(self)),

    {
        if self.current_page == Page::Proxies {
            self.proxies.on_right_key();
        }
    }

    /// Down arrow: the list of the page shown moves one row down (see
    /// `page_stepped`); in `viewport` rows where a list scrolls.
    pub fn on_down_key(&mut self, viewport: usize)
        requires
            step_ok(*old(self), viewport, 1i32),
        ensures
            only_current_page(*old(self), *final(self)),
            page_stepped(*old(self), *final(self), viewport, 1),
    {
        match self.current_page {
            Page::Profiles => self.profiles.on_down_key(),
            Page::Proxies => self.proxies.on_down_key(viewport),
            Page::Connections => self.connections.on_down_key(),
            Page::Rules => self.rules.on_down_key(),
            Page::Logs => self.logs.on_down_key(),
            Page::Settings => self.settings.on_down_key(viewport),
            Page::Home => {},
        }
    }

    /// Up arrow: the list of the page shown moves one row up (see
    /// `page_stepped`).
    pub fn on_up_key(&mut self, viewport: usize)
        requires
            step_ok(*old(self), viewport, -1i32),
        ensures
            only_current_page(*old(self), *final(self)),
            page_stepped(*old(self), *final(self), viewport, -1),
    {
        match self.current_page {
            Page::Profiles => self.profiles.on_up_key(),
            Page::Proxies => self.proxies.on_up_key(viewport),
            Page::Connections => self.connections.on_up_key(),
            Page::Rules => self.rules.on_up_key(),
            Page::Logs => self.logs.on_up_key(),
            Page::Settings => self.settings.on_up_key(viewport),
            Page::Home => {},
        }
    }

    /// Whether the periodic refresh should fetch the connections: only
    /// while their page is shown.
    pub fn connections_refresh_due(&self) -> (r: bool)
        ensures
            r == (self.current_page == Page::Connections),
    {
        self.current_page == Page::Connections
    }
}

} // verus!

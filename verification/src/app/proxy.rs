//! The proxy page: the groups with members on the left, the members of
//! the selected group on the right, and which side has the focus.

use vstd::prelude::*;
use crate::groups::{
    group_index_of, group_position, index_of, listed_group, members, name_order, normalize_groups, position_of,
    same_but_members,
};
use crate::sort::sort_by;
use crate::tui::models::{Groups, Proxy};
use crate::tui::nav::{row_above_or_first, row_below, selected_as, ListCursor};

verus! {

/// Which list the arrow keys move in.
#[derive(PartialEq, Eq, Debug, Clone, Copy, Structural)]
pub enum ProxyFocus {
    Groups,
    Proxies,
}

/// The group under a selection, if the selection is inside the list.
pub open spec fn group_at(groups: Seq<Proxy>, sel: Option<usize>) -> Option<Proxy> {
    match sel {
        Some(i) => if i < groups.len() { Some(groups[i as int]) } else { None },
        None => None,
    }
}

/// The name of the member under the two selections, if both are inside
/// their lists.
pub open spec fn member_at(groups: Seq<Proxy>, gsel: Option<usize>, psel: Option<usize>) -> Option<Seq<char>> {
    match group_at(groups, gsel) {
        Some(g) => match psel {
            Some(p) => if g.all is Some && p < members(g).len() { Some(members(g)[p as int]@) } else { None },
            None => None,
        },
        None => None,
    }
}

/// The position of a group's current member, or the first position.
pub open spec fn now_or_first(g: Proxy) -> int {
    match g.now {
        Some(n) => match index_of(members(g), n@) {
            Some(j) => j,
            None => 0,
        },
        None => 0,
    }
}

/// The row a name is found at, or `fallback` when it is not there.
pub open spec fn found_or(found: Option<int>, fallback: int) -> int {
    match found {
        Some(i) => i,
        None => fallback,
    }
}

/// The group row kept across a refresh: the group of the previously
/// selected name, else the first.
pub open spec fn kept_group_row(new_groups: Seq<Proxy>, old_name: Option<Seq<char>>) -> int {
    match old_name {
        Some(n) => found_or(group_index_of(new_groups, n), 0),
        None => 0,
    }
}

/// The member row kept across a refresh: the previously selected member,
/// else the group's current member, else the first.
pub open spec fn kept_member_row(g: Proxy, old_member: Option<Seq<char>>) -> int {
    match old_member {
        Some(n) => found_or(index_of(members(g), n), now_or_first(g)),
        None => now_or_first(g),
    }
}

/// The member row a group starts with when it is selected: its current
/// member, else the first; none for a proxy that is not a group or a row
/// outside the list.
pub open spec fn default_member_row(groups: Seq<Proxy>, i: usize) -> Option<usize> {
    match group_at(groups, Some(i)) {
        Some(g) => if g.all is Some { Some(now_or_first(g) as usize) } else { None },
        None => None,
    }
}

/// The proxy page.
#[derive(Debug)]
pub struct ProxyState {
    pub focus: ProxyFocus,
    pub groups: Vec<Proxy>,
    pub group_list_state: ListCursor,
    pub proxy_list_state: ListCursor,
}

/// `after` is `before` once it has taken `groups_data` (see `update_groups`).
pub open spec fn groups_taken(before: ProxyState, after: ProxyState, groups_data: Groups) -> bool {
    &&& (after.groups@.len() == sort_by(
        crate::groups::member_groups(groups_data.proxies@),
        crate::groups::group_order(),
    ).len())
    &&& (forall|i: int|
        0 <= i < after.groups@.len() ==> {
            &&& same_but_members(#[trigger] after.groups@[i], listed_group(groups_data.proxies@, i))
            &&& members(after.groups@[i]) == sort_by(
                members(listed_group(groups_data.proxies@, i)),
                name_order(),
            )
        })
    &&& (after.focus == before.focus)
    &&& (after.groups@.len() == 0 ==> after.group_list_state == selected_as(
        before.group_list_state,
        None,
    ) && after.proxy_list_state == selected_as(before.proxy_list_state, None))
    &&& (after.groups@.len() > 0 ==> {
        let gi = kept_group_row(
            after.groups@,
            match group_at(before.groups@, before.group_list_state.selected) {
                Some(g) => Some(g.name@),
                None => None,
            },
        );
        let pi = kept_member_row(
            after.groups@[gi],
            member_at(before.groups@, before.group_list_state.selected, before.proxy_list_state.selected),
        );
        &&& after.group_list_state == selected_as(before.group_list_state, Some(gi as usize))
        &&& after.proxy_list_state == selected_as(before.proxy_list_state, Some(pi as usize))
        &&& 0 <= gi < after.groups@.len()
        &&& 0 <= pi < members(after.groups@[gi]).len()
    })
}

/// `r` is an empty proxy page (see `new`).
pub open spec fn fresh_proxy_state(r: ProxyState) -> bool {
    &&& (r.focus == ProxyFocus::Groups)
    &&& (r.groups@.len() == 0)
    &&& (r.group_list_state == (ListCursor { selected: None, offset: 0 }))
    &&& (r.proxy_list_state == (ListCursor { selected: None, offset: 0 }))
}

/// `after` is `before` after its down arrow (see `on_down_key`).
pub open spec fn proxy_moved_down(before: ProxyState, after: ProxyState) -> bool {
    &&& (after.groups == before.groups)
    &&& (after.focus == before.focus)
    &&& (before.focus == ProxyFocus::Groups ==> if before.groups@.len() == 0 {
        after == before
    } else {
        let i = row_below(before.group_list_state.selected, before.groups@.len() as int);
        &&& after.group_list_state == selected_as(before.group_list_state, Some(i as usize))
        &&& after.proxy_list_state == selected_as(
            before.proxy_list_state,
            default_member_row(before.groups@, i as usize),
        )
    })
    &&& (before.focus == ProxyFocus::Proxies ==> after.group_list_state == before.group_list_state
        && after.proxy_list_state == match group_at(before.groups@, before.group_list_state.selected) {
            Some(g) => if g.all is Some && members(g).len() > 0 {
                selected_as(
                    before.proxy_list_state,
                    Some(row_below(before.proxy_list_state.selected, members(g).len() as int) as usize),
                )
            } else {
                before.proxy_list_state
            },
            None => before.proxy_list_state,
        })
}

/// `after` is `before` after its up arrow (see `on_up_key`).
pub open spec fn proxy_moved_up(before: ProxyState, after: ProxyState) -> bool {
    &&& (after.groups == before.groups)
    &&& (after.focus == before.focus)
    &&& (before.focus == ProxyFocus::Groups ==> if before.groups@.len() == 0 {
        after == before
    } else {
        let i = row_above_or_first(before.group_list_state.selected, before.groups@.len() as int);
        &&& after.group_list_state == selected_as(before.group_list_state, Some(i as usize))
        &&& after.proxy_list_state == selected_as(
            before.proxy_list_state,
            default_member_row(before.groups@, i as usize),
        )
    })
    &&& (before.focus == ProxyFocus::Proxies ==> after.group_list_state == before.group_list_state
        && after.proxy_list_state == match group_at(before.groups@, before.group_list_state.selected) {
            Some(g) => if g.all is Some && members(g).len() > 0 {
                selected_as(
                    before.proxy_list_state,
                    Some(row_above_or_first(before.proxy_list_state.selected, members(g).len() as int) as usize),
                )
            } else {
                before.proxy_list_state
            },
            None => before.proxy_list_state,
        })
}

/// `after` is `before` after its left arrow (see `on_left_key`).
pub open spec fn proxy_moved_left(before: ProxyState, after: ProxyState) -> bool {
    &&& (after.focus == ProxyFocus::Groups)
    &&& (after.groups == before.groups)
    &&& (after.group_list_state == before.group_list_state)
    &&& (after.proxy_list_state == before.proxy_list_state)
}

/// `after` is `before` after its right arrow (see `on_right_key`).
pub open spec fn proxy_moved_right(before: ProxyState, after: ProxyState) -> bool {
    &&& (after.focus == ProxyFocus::Proxies)
    &&& (after.groups == before.groups)
    &&& (after.group_list_state == before.group_list_state)
    &&& (after.proxy_list_state == (if before.proxy_list_state.selected is None {
        selected_as(before.proxy_list_state, Some(0))
    } else {
        before.proxy_list_state
    }))
}

impl ProxyState {
    /// An empty page with the focus on the groups.
    pub fn new() -> (r: Self)
        ensures
            fresh_proxy_state(r),

    {
        ProxyState {
            focus: ProxyFocus::Groups,
            groups: Vec::new(),
            group_list_state: ListCursor::default(),
            proxy_list_state: ListCursor::default(),
        }
    }

    fn selected_group_name(&self) -> (r: Option<String>)
        ensures
            match group_at(self.groups@, self.group_list_state.selected) {
                Some(g) => r is Some && r.unwrap()@ == g.name@,
                None => r is None,
            },
    {
        match self.group_list_state.selected {
            Some(i) => if i < self.groups.len() {
                Some(self.groups[i].name.clone())
            } else {
                None
            },
            None => None,
        }
    }

    fn selected_member_name(&self) -> (r: Option<String>)
        ensures
            match member_at(self.groups@, self.group_list_state.selected, self.proxy_list_state.selected) {
                Some(n) => r is Some && r.unwrap()@ == n,
                None => r is None,
            },
    {
        match self.group_list_state.selected {
            Some(i) => if i < self.groups.len() {
                match self.proxy_list_state.selected {
                    Some(p) => match &self.groups[i].all {
                        Some(all) => if p < all.len() {
                            Some(all[p].clone())
                        } else {
                            None
                        },
                        None => None,
                    },
                    None => None,
                }
            } else {
                None
            },
            None => None,
        }
    }

    /// Replaces the groups by those of `groups_data` that have members,
    /// sorted by name with their members sorted (ASCII case ignored), and
    /// keeps the selection by name: the same group (else the first), and in
    /// it the same member, else its current member, else the first. With no
    /// groups both selections are cleared.
    pub fn update_groups(&mut self, groups_data: Groups)
        ensures
            groups_taken(*old(self), *final(self), groups_data),

    {
        let old_group = self.selected_group_name();
        let old_member = self.selected_member_name();
        self.groups = normalize_groups(groups_data.proxies);
        if self.groups.len() == 0 {
            self.group_list_state.select(None);
            self.proxy_list_state.select(None);
            return;
        }
        let gi: usize = match &old_group {
            Some(n) => match group_position(&self.groups, n.as_str()) {
                Some(i) => i,
                None => 0,
            },
            None => 0,
        };
        self.group_list_state.select(Some(gi));
        let pi = self.member_row(gi, &old_member);
        self.proxy_list_state.select(Some(pi));
    }

    fn member_row(&self, gi: usize, old_member: &Option<String>) -> (r: usize)
        requires
            gi < self.groups@.len(),
            crate::groups::has_members(self.groups@[gi as int]),
        ensures
            r == kept_member_row(
                self.groups@[gi as int],
                match old_member {
                    Some(s) => Some(s@),
                    None => None,
                },
            ),
            r < members(self.groups@[gi as int]).len(),
    {
        let g = &self.groups[gi];
        match &g.all {
            Some(all) => {
                let now_row: usize = match &g.now {
                    Some(n) => match position_of(all, n.as_str()) {
                        Some(j) => j,
                        None => 0,
                    },
                    None => 0,
                };
                match old_member {
                    Some(m) => match position_of(all, m.as_str()) {
                        Some(j) => j,
                        None => now_row,
                    },
                    None => now_row,
                }
            },
            None => 0,
        }
    }

    /// The selected group's name and the selected member's name, when both
    /// selections are inside their lists.
    pub fn selected_node(&self) -> (r: Option<(&str, &str)>)
        ensures
            match member_at(self.groups@, self.group_list_state.selected, self.proxy_list_state.selected) {
                Some(n) => r is Some && r.unwrap().1@ == n && r.unwrap().0@ == group_at(
                    self.groups@,
                    self.group_list_state.selected,
                ).unwrap().name@,
                None => r is None,
            },
    {
        match self.group_list_state.selected {
            Some(i) => if i < self.groups.len() {
                match self.proxy_list_state.selected {
                    Some(p) => match &self.groups[i].all {
                        Some(all) => if p < all.len() {
                            Some((self.groups[i].name.as_str(), all[p].as_str()))
                        } else {
                            None
                        },
                        None => None,
                    },
                    None => None,
                }
            } else {
                None
            },
            None => None,
        }
    }

    fn select_default_proxy_for_group(&mut self, group_idx: usize)
        ensures
            final(self).proxy_list_state == selected_as(
                old(self).proxy_list_state,
                default_member_row(old(self).groups@, group_idx),
            ),
            final(self).groups == old(self).groups,
            final(self).group_list_state == old(self).group_list_state,
            final(self).focus == old(self).focus,
    {
        let idx: Option<usize> = if group_idx < self.groups.len() {
            let g = &self.groups[group_idx];
            match &g.all {
                Some(all) => match &g.now {
                    Some(n) => match position_of(all, n.as_str()) {
                        Some(j) => Some(j),
                        None => Some(0),
                    },
                    None => Some(0),
                },
                None => None,
            }
        } else {
            None
        };
        self.proxy_list_state.select(idx);
    }

    /// Down arrow: the next group (wrapping) with its current member
    /// selected, or the next member of the selected group (wrapping).
    pub fn on_down_key(&mut self)
        ensures
            proxy_moved_down(*old(self), *final(self)),

    {
        match self.focus {
            ProxyFocus::Groups => {
                let n = self.groups.len();
                if n > 0 {
                    let i: usize = match self.group_list_state.selected {
                        Some(i) => if i >= n - 1 { 0 } else { i + 1 },
                        None => 0,
                    };
                    self.group_list_state.select(Some(i));
                    self.select_default_proxy_for_group(i);
                }
            },
            ProxyFocus::Proxies => {
                let len: usize = self.member_count();
                if len > 0 {
                    let i: usize = match self.proxy_list_state.selected {
                        Some(i) => if i >= len - 1 { 0 } else { i + 1 },
                        None => 0,
                    };
                    self.proxy_list_state.select(Some(i));
                }
            },
        }
    }

    /// Up arrow: the previous group (wrapping) with its current member
    /// selected, or the previous member of the selected group (wrapping);
    /// without a selection the first row.
    pub fn on_up_key(&mut self)
        ensures
            proxy_moved_up(*old(self), *final(self)),

    {
        match self.focus {
            ProxyFocus::Groups => {
                let n = self.groups.len();
                if n > 0 {
                    let i: usize = match self.group_list_state.selected {
                        Some(i) => if i == 0 { n - 1 } else { i - 1 },
                        None => 0,
                    };
                    self.group_list_state.select(Some(i));
                    self.select_default_proxy_for_group(i);
                }
            },
            ProxyFocus::Proxies => {
                let len: usize = self.member_count();
                if len > 0 {
                    let i: usize = match self.proxy_list_state.selected {
                        Some(i) => if i == 0 { len - 1 } else { i - 1 },
                        None => 0,
                    };
                    self.proxy_list_state.select(Some(i));
                }
            },
        }
    }

    fn member_count(&self) -> (r: usize)
        ensures
            r == match group_at(self.groups@, self.group_list_state.selected) {
                Some(g) => members(g).len(),
                None => 0,
            },
    {
        match self.group_list_state.selected {
            Some(i) => if i < self.groups.len() {
                match &self.groups[i].all {
                    Some(all) => all.len(),
                    None => 0,
                }
            } else {
                0
            },
            None => 0,
        }
    }

    /// Left arrow: the focus moves to the groups.
    pub fn on_left_key(&mut self)
        ensures
            proxy_moved_left(*old(self), *final(self)),

    {
        self.focus = ProxyFocus::Groups;
    }

    /// Right arrow: the focus moves to the members, and the first member is
    /// selected if none is.
    pub fn on_right_key(&mut self)
        ensures
            proxy_moved_right(*old(self), *final(self)),

    {
        self.focus = ProxyFocus::Proxies;
        if self.proxy_list_state.selected.is_none() {
            self.proxy_list_state.select(Some(0));
        }
    }
}

} // verus!

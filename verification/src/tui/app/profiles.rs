//! The Profiles page: the subscription profiles, the current one, and
//! which row is busy.

use vstd::prelude::*;
use crate::text::str_eq;
use crate::tui::models::ProfileItem;
use crate::tui::nav::{row_above, row_below, select_above, select_below, selected_as, ListCursor};

verus! {

/// What a profile row is busy with (for its spinner).
#[derive(Debug, Clone, Copy, PartialEq, Eq, Structural)]
pub enum ProfileBusy {
    Idle,
    Importing,
    Updating,
}

impl Default for ProfileBusy {
    fn default() -> (r: Self)
        ensures
            r == ProfileBusy::Idle,
    {
        ProfileBusy::Idle
    }
}

/// The item under a selection, if the selection is inside the list.
pub open spec fn item_at(items: Seq<ProfileItem>, sel: Option<usize>) -> Option<ProfileItem> {
    match sel {
        Some(i) => if i < items.len() { Some(items[i as int]) } else { None },
        None => None,
    }
}

/// The position of the first item with the id `uid`.
pub open spec fn uid_index(items: Seq<ProfileItem>, uid: Seq<char>) -> Option<int> {
    if exists|i: int| 0 <= i < items.len() && items[i].uid@ == uid {
        Some(choose|i: int| 0 <= i < items.len() && items[i].uid@ == uid && forall|j: int| 0 <= j < i ==> items[j].uid@ != uid)
    } else {
        None
    }
}

/// The Profiles page.
#[derive(Debug)]
pub struct ProfilesState {
    pub items: Vec<ProfileItem>,
    pub current: Option<String>,
    pub list_state: ListCursor,
    /// The profile being updated (none while importing, its id unknown).
    pub busy_uid: Option<String>,
    pub busy: ProfileBusy,
}

impl ProfilesState {
    /// An empty, idle page.
    pub fn new() -> (r: Self)
        ensures
            r.items@.len() == 0,
            r.current is None,
            r.list_state == (ListCursor { selected: None, offset: 0 }),
            r.busy_uid is None,
            r.busy == ProfileBusy::Idle,
    {
        ProfilesState {
            items: Vec::new(),
            current: None,
            list_state: ListCursor::default(),
            busy_uid: None,
            busy: ProfileBusy::Idle,
        }
    }

    /// The selected profile.
    pub fn selected(&self) -> (r: Option<&ProfileItem>)
        ensures
            match item_at(self.items@, self.list_state.selected) {
                Some(p) => r == Some(&p),
                None => r is None,
            },
    {
        match self.list_state.selected {
            Some(i) => if i < self.items.len() {
                Some(&self.items[i])
            } else {
                None
            },
            None => None,
        }
    }

    fn uid_position(&self, uid: &str) -> (r: Option<usize>)
        ensures
            match r {
                Some(i) => i < self.items@.len() && uid_index(self.items@, uid@) == Some(i as int),
                None => uid_index(self.items@, uid@) is None,
            },
    {
        let n = self.items.len();
        let mut i: usize = 0;
        while i < n
            invariant
                n == self.items@.len(),
                i <= n,
                forall|j: int| 0 <= j < i ==> self.items@[j].uid@ != uid@,
            decreases n - i,
        {
            if str_eq(self.items[i].uid.as_str(), uid) {
                proof {
                    let s = self.items@;
                    assert(s[i as int].uid@ == uid@);
                    let w = choose|w: int| 0 <= w < s.len() && s[w].uid@ == uid@ && forall|j: int| 0 <= j < w ==> s[j].uid@ != uid@;
                    if w > i {
                        assert(s[i as int].uid@ != uid@);
                    }
                }
                return Some(i);
            }
            i = i + 1;
        }
        None
    }

    /// Replaces the list and the current profile, keeping the selection on
    /// the same profile id when it is still listed, else on the first row;
    /// an empty list clears it.
    pub fn update_list(&mut self, current: Option<String>, items: Vec<ProfileItem>)
        ensures
            final(self).items@ == items@,
            final(self).current == current,
            final(self).list_state == if items@.len() == 0 {
                selected_as(old(self).list_state, None)
            } else {
                let kept = match item_at(old(self).items@, old(self).list_state.selected) {
                    Some(p) => match uid_index(items@, p.uid@) {
                        Some(i) => i,
                        None => 0,
                    },
                    None => 0,
                };
                selected_as(old(self).list_state, Some(kept as usize))
            },
            final(self).busy == old(self).busy,
            final(self).busy_uid == old(self).busy_uid,
    {
        let old_uid: Option<String> = match self.selected() {
            Some(p) => Some(p.uid.clone()),
            None => None,
        };
        self.items = items;
        self.current = current;
        if self.items.len() == 0 {
            self.list_state.select(None);
            return;
        }
        let idx: usize = match &old_uid {
            Some(uid) => match self.uid_position(uid.as_str()) {
                Some(i) => i,
                None => 0,
            },
            None => 0,
        };
        self.list_state.select(Some(idx));
    }

    /// Selects the next row, wrapping to the first.
    pub fn on_down_key(&mut self)
        ensures
            final(self).list_state == (if old(self).items@.len() == 0 {
                old(self).list_state
            } else {
                selected_as(old(self).list_state, Some(row_below(old(self).list_state.selected, old(self).items@.len() as int) as usize))
            }),
            final(self).items == old(self).items,
    {
        select_below(&mut self.list_state, self.items.len());
    }

    /// Selects the previous row, wrapping to the last (also without a
    /// selection).
    pub fn on_up_key(&mut self)
        ensures
            final(self).list_state == (if old(self).items@.len() == 0 {
                old(self).list_state
            } else {
                selected_as(old(self).list_state, Some(row_above(old(self).list_state.selected, old(self).items@.len() as int) as usize))
            }),
            final(self).items == old(self).items,
    {
        select_above(&mut self.list_state, self.items.len());
    }
}


/// The profile to make current after `removed` was deleted: when it was
/// the current one (`old_current`), the first profile the helper lists
/// afterwards (`items`); none when another profile was current or none is
/// left.
pub fn profile_after_removal(old_current: Option<&str>, removed: &str, items: &Vec<ProfileItem>) -> (r: Option<String>)
    ensures
        match r {
            Some(u) => (old_current matches Some(c) && c@ == removed@) && items@.len() > 0 && u@ == items@[0].uid@,
            None => !(old_current matches Some(c) && c@ == removed@) || items@.len() == 0,
        },
{
    let was_current = match old_current {
        Some(c) => str_eq(c, removed),
        None => false,
    };
    if was_current && items.len() > 0 {
        Some(items[0].uid.clone())
    } else {
        None
    }
}

} // verus!

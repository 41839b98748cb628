//! The history view of a profile: its kept versions, newest as the
//! helper lists them, one of which can be restored.

use vstd::prelude::*;
use crate::parse::{decimal, decimal_string};
use crate::tui::models::ProfileVersion;
use crate::tui::nav::{row_above_or_first, row_below, select_above_or_first, select_below, selected_as, ListCursor};

verus! {

/// The versions of one profile and the row under the cursor.
#[derive(Debug)]
pub struct HistoryView {
    pub uid: String,
    pub versions: Vec<ProfileVersion>,
    pub list_state: ListCursor,
}

/// The version under a selection, if the selection is inside the list.
pub open spec fn version_at(versions: Seq<ProfileVersion>, sel: Option<usize>) -> Option<ProfileVersion> {
    match sel {
        Some(i) => if i < versions.len() { Some(versions[i as int]) } else { None },
        None => None,
    }
}

impl HistoryView {
    /// The versions of profile `uid`, the first one selected when there
    /// is one.
    pub fn new(uid: String, versions: Vec<ProfileVersion>) -> (r: Self)
        ensures
            r.uid == uid,
            r.versions@ == versions@,
            r.list_state == (ListCursor {
                selected: if versions@.len() > 0 { Some(0usize) } else { None },
                offset: 0,
            }),
    {
        let mut list_state = ListCursor::default();
        if versions.len() > 0 {
            list_state.select(Some(0));
        }
        HistoryView { uid, versions, list_state }
    }

    /// The version under the cursor.
    pub fn selected(&self) -> (r: Option<ProfileVersion>)
        ensures
            r == version_at(self.versions@, self.list_state.selected),
    {
        match self.list_state.selected {
            Some(i) => if i < self.versions.len() {
                Some(self.versions[i])
            } else {
                None
            },
            None => None,
        }
    }

    /// Selects the next version, wrapping to the first.
    pub fn on_down_key(&mut self)
        ensures
            final(self).uid == old(self).uid,
            final(self).versions == old(self).versions,
            final(self).list_state == (if old(self).versions@.len() == 0 {
                old(self).list_state
            } else {
                selected_as(old(self).list_state, Some(row_below(old(self).list_state.selected, old(self).versions@.len() as int) as usize))
            }),
    {
        select_below(&mut self.list_state, self.versions.len());
    }

    /// Selects the previous version, wrapping to the last; without a
    /// selection the first.
    pub fn on_up_key(&mut self)
        ensures
            final(self).uid == old(self).uid,
            final(self).versions == old(self).versions,
            final(self).list_state == (if old(self).versions@.len() == 0 {
                old(self).list_state
            } else {
                selected_as(old(self).list_state, Some(row_above_or_first(old(self).list_state.selected, old(self).versions@.len() as int) as usize))
            }),
    {
        select_above_or_first(&mut self.list_state, self.versions.len());
    }
}

/// A row of the history view as shown: `v` and the version number, and
/// when it was saved.
pub fn version_row(v: &ProfileVersion) -> (r: (String, String))
    ensures
        r.0@ == "v"@ + decimal(v.version as nat),
        r.1@ == crate::tui::canvas::time_or_dash(v.updated_at),
{
    let mut label = String::from_str("v");
    let n = decimal_string(v.version as u64);
    label.append(n.as_str());
    (label, crate::tui::canvas::format_time_or_dash(v.updated_at))
}

} // verus!

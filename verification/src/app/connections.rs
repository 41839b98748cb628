//! The connections page: the active connections and the totals reported
//! with them.

use vstd::prelude::*;
use crate::tui::models::{Connection, Connections};
use crate::tui::nav::{row_above_or_first, row_below, select_above_or_first, select_below, selected_as, ListCursor};

verus! {

/// The cursor after the table is replaced by one of `len` rows: a table
/// without a selection selects its first row, a selection past the end
/// moves to the last row (or is cleared for an empty table), and any
/// other cursor stays.
pub open spec fn refit(c: ListCursor, len: int) -> ListCursor {
    match c.selected {
        None => if len > 0 { selected_as(c, Some(0)) } else { c },
        Some(i) => if i >= len {
            if len == 0 { selected_as(c, None) } else { selected_as(c, Some((len - 1) as usize)) }
        } else {
            c
        },
    }
}

/// Re-fits a cursor to a table of `len` rows (see `refit`).
pub fn refit_cursor(c: &mut ListCursor, len: usize)
    ensures
        *final(c) == refit(*old(c), len as int),
{
    match c.selected {
        None => {
            if len > 0 {
                c.select(Some(0));
            }
        },
        Some(i) => {
            if i >= len {
                if len == 0 {
                    c.select(None);
                } else {
                    c.select(Some(len - 1));
                }
            }
        },
    }
}

/// The connections page.
#[derive(Debug)]
pub struct ConnectionsState {
    /// The last report; its list of connections is moved to `connections`.
    pub connections_data: Option<Connections>,
    pub list_state: ListCursor,
    pub connections: Vec<Connection>,
}

impl ConnectionsState {
    /// An empty page.
    pub fn new() -> (r: Self)
        ensures
            r.connections_data is None,
            r.list_state == (ListCursor { selected: None, offset: 0 }),
            r.connections@.len() == 0,
    {
        ConnectionsState { connections_data: None, list_state: ListCursor::default(), connections: Vec::new() }
    }

    /// Takes a new report: its connections become the table (none when it
    /// has no list), the totals are kept, and the cursor is re-fitted.
    pub fn update_connections(&mut self, data: Connections)
        ensures
            final(self).connections@ == match data.connections {
                Some(v) => v@,
                None => Seq::empty(),
            },
            final(self).connections_data matches Some(d) && d.upload_total == data.upload_total
                && d.download_total == data.download_total && d.memory == data.memory && d.connections is None,
            final(self).list_state == refit(old(self).list_state, final(self).connections@.len() as int),
    {
        let mut data = data;
        let list = data.connections.take();
        self.connections = match list {
            Some(v) => v,
            None => Vec::new(),
        };
        self.connections_data = Some(data);
        refit_cursor(&mut self.list_state, self.connections.len());
    }

    /// Selects the next row, wrapping to the first.
    pub fn on_down_key(&mut self)
        ensures
            final(self).list_state == (if old(self).connections@.len() == 0 {
                old(self).list_state
            } else {
                selected_as(old(self).list_state, Some(row_below(old(self).list_state.selected, old(self).connections@.len() as int) as usize))
            }),
            final(self).connections == old(self).connections,
    {
        select_below(&mut self.list_state, self.connections.len());
    }

    /// Selects the previous row, wrapping to the last; without a selection
    /// the first row.
    pub fn on_up_key(&mut self)
        ensures
            final(self).list_state == (if old(self).connections@.len() == 0 {
                old(self).list_state
            } else {
                selected_as(old(self).list_state, Some(row_above_or_first(old(self).list_state.selected, old(self).connections@.len() as int) as usize))
            }),
            final(self).connections == old(self).connections,
    {
        select_above_or_first(&mut self.list_state, self.connections.len());
    }
}

} // verus!

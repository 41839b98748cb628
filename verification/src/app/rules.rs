//! The rules page: the routing rules in their order.

use vstd::prelude::*;
use crate::tui::models::Rule;
use crate::tui::nav::{row_above_or_first, row_below, select_above_or_first, select_below, selected_as, ListCursor};

verus! {

/// The rules page.
#[derive(Debug)]
pub struct RulesState {
    pub rules: Vec<Rule>,
    pub list_state: ListCursor,
}

impl RulesState {
    /// An empty page.
    pub fn new() -> (r: Self)
        ensures
            r.rules@.len() == 0,
            r.list_state == (ListCursor { selected: None, offset: 0 }),
    {
        RulesState { rules: Vec::new(), list_state: ListCursor::default() }
    }

    /// Replaces the rules: no rules clears the selection, a first list
    /// selects its first row, any other selection stays.
    pub fn update_rules(&mut self, rules: Vec<Rule>)
        ensures
            final(self).rules@ == rules@,
            final(self).list_state == (if rules@.len() == 0 {
                selected_as(old(self).list_state, None)
            } else if old(self).list_state.selected is None {
                selected_as(old(self).list_state, Some(0))
            } else {
                old(self).list_state
            }),
    {
        self.rules = rules;
        if self.rules.len() == 0 {
            self.list_state.select(None);
        } else if self.list_state.selected.is_none() {
            self.list_state.select(Some(0));
        }
    }

    /// Selects the next row, wrapping to the first.
    pub fn on_down_key(&mut self)
        ensures
            final(self).list_state == (if old(self).rules@.len() == 0 {
                old(self).list_state
            } else {
                selected_as(old(self).list_state, Some(row_below(old(self).list_state.selected, old(self).rules@.len() as int) as usize))
            }),
            final(self).rules == old(self).rules,
    {
        select_below(&mut self.list_state, self.rules.len());
    }

    /// Selects the previous row, wrapping to the last; without a selection
    /// the first row.
    pub fn on_up_key(&mut self)
        ensures
            final(self).list_state == (if old(self).rules@.len() == 0 {
                old(self).list_state
            } else {
                selected_as(old(self).list_state, Some(row_above_or_first(old(self).list_state.selected, old(self).rules@.len() as int) as usize))
            }),
            final(self).rules == old(self).rules,
    {
        select_above_or_first(&mut self.list_state, self.rules.len());
    }
}

} // verus!

//! The Rules page: the routing rules with a keyword filter, and the rule
//! providers ordered by name.

use vstd::prelude::*;
use crate::sort::{
    insert_by, lemma_insert_at, lemma_sort_elements, lemma_sort_sorted, lemma_sort_step, lemma_text_key_strict_weak,
    seq_lt, sort_by, str_less,
};
use crate::text::{
    all_ascii, ascii_lowercase, contains_seq, lemma_ascii_lowercase_idempotent, lemma_contains_lowercased, lowercase,
    lowers_as_ascii, str_contains, to_lowercase,
};
use crate::tui::models::{Rule, RuleProvider};
use crate::tui::nav::{row_above, row_below, select_above, select_below, selected_as, ListCursor};

verus! {

/// The two tabs of the page.
#[derive(Debug, Clone, Copy, PartialEq, Eq, Structural)]
pub enum RulesTab {
    Rules,
    Providers,
}

impl Default for RulesTab {
    fn default() -> (r: Self)
        ensures
            r == RulesTab::Rules,
    {
        RulesTab::Rules
    }
}

/// Whether a rule shows under a keyword: every rule for an empty keyword,
/// else a rule whose type, payload or target contains the keyword,
/// compared in lowercase.
pub open spec fn rule_shown(r: Rule, needle: Seq<char>) -> bool {
    needle.len() == 0 || contains_seq(lowercase(r.rule_type@), lowercase(needle)) || contains_seq(
        lowercase(r.payload@),
        lowercase(needle),
    ) || contains_seq(lowercase(r.proxy@), lowercase(needle))
}

/// Whether a rule shows under a keyword (see `rule_shown`).
pub fn rule_matches(rule: &Rule, needle: &str) -> (r: bool)
    ensures
        r == rule_shown(*rule, needle@),
        all_ascii(needle@) && all_ascii(rule.rule_type@) && all_ascii(rule.payload@) && all_ascii(rule.proxy@) && (
        contains_seq(rule.rule_type@, needle@) || contains_seq(rule.payload@, needle@) || contains_seq(
            rule.proxy@,
            needle@,
        )) ==> r,
{
    if needle.unicode_len() == 0 {
        return true;
    }
    let n = to_lowercase(needle);
    let t = to_lowercase(rule.rule_type.as_str());
    if str_contains(t.as_str(), n.as_str()) {
        return true;
    }
    let p = to_lowercase(rule.payload.as_str());
    if str_contains(p.as_str(), n.as_str()) {
        return true;
    }
    let x = to_lowercase(rule.proxy.as_str());
    proof {
        if all_ascii(needle@) && all_ascii(rule.rule_type@) && all_ascii(rule.payload@) && all_ascii(rule.proxy@) && (
        contains_seq(rule.rule_type@, needle@) || contains_seq(rule.payload@, needle@) || contains_seq(
            rule.proxy@,
            needle@,
        )) {
            lemma_rule_shown_verbatim(*rule, needle@);
        }
    }
    str_contains(x.as_str(), n.as_str())
}

/// A rule shows under every keyword that its type, payload or target
/// contains as written, capitals included: the keyword is compared in
/// lowercase like the fields. Stated for text whose lowercase is its ASCII
/// lowercase (all ASCII text, as `to_lowercase` ensures).
pub proof fn lemma_rule_shown_verbatim(r: Rule, k: Seq<char>)
    requires
        lowers_as_ascii(k),
        lowers_as_ascii(r.rule_type@),
        lowers_as_ascii(r.payload@),
        lowers_as_ascii(r.proxy@),
        contains_seq(r.rule_type@, k) || contains_seq(r.payload@, k) || contains_seq(r.proxy@, k),
    ensures
        rule_shown(r, k),
{
    if contains_seq(r.rule_type@, k) {
        lemma_contains_lowercased(r.rule_type@, k);
    } else if contains_seq(r.payload@, k) {
        lemma_contains_lowercased(r.payload@, k);
    } else {
        lemma_contains_lowercased(r.proxy@, k);
    }
}

/// The keyword's case does not matter: under a keyword and under the same
/// keyword in lowercase the same rules show, in the same order. Stated for
/// text whose lowercase is its ASCII lowercase.
pub proof fn lemma_rule_filter_ignores_case(all: Seq<Rule>, k: Seq<char>)
    requires
        lowers_as_ascii(k),
        lowers_as_ascii(ascii_lowercase(k)),
    ensures
        forall|r: Rule| #[trigger] rule_shown(r, k) == rule_shown(r, ascii_lowercase(k)),
        shown_rules(all, k) == shown_rules(all, ascii_lowercase(k)),
{
    lemma_ascii_lowercase_idempotent(k);
    assert(ascii_lowercase(k).len() == k.len());
    let p = |r: Rule| rule_shown(r, k);
    let q = |r: Rule| rule_shown(r, ascii_lowercase(k));
    assert(p =~= q);
}

/// A copy of a rule.
pub fn copy_rule(rule: &Rule) -> (r: Rule)
    ensures
        r == *rule,
{
    Rule {
        index: rule.index,
        rule_type: rule.rule_type.clone(),
        payload: rule.payload.clone(),
        proxy: rule.proxy.clone(),
        size: rule.size,
        extra: rule.extra,
    }
}

/// Provider order: by name (`str::cmp`).
pub open spec fn provider_order() -> spec_fn((String, RuleProvider), (String, RuleProvider)) -> bool {
    |a: (String, RuleProvider), b: (String, RuleProvider)| seq_lt(a.0@, b.0@)
}

/// Sorting providers keeps them all and puts them in ascending order of
/// name (code-point order, as `str::cmp`).
pub proof fn lemma_sorted_providers(v: Seq<(String, RuleProvider)>)
    ensures
        sort_by(v, provider_order()).to_multiset() == v.to_multiset(),
        sort_by(v, provider_order()).len() == v.len(),
        forall|i: int, j: int|
            #![trigger sort_by(v, provider_order())[i], sort_by(v, provider_order())[j]]
            0 <= i < j < v.len() ==> !seq_lt(sort_by(v, provider_order())[j].0@, sort_by(v, provider_order())[i].0@),
{
    lemma_sort_elements(v, provider_order());
    lemma_text_key_strict_weak(provider_order(), |p: (String, RuleProvider)| p.0@, false);
    lemma_sort_sorted(v, provider_order());
}

/// The rules that show under a keyword, in order.
pub open spec fn shown_rules(all: Seq<Rule>, needle: Seq<char>) -> Seq<Rule> {
    all.filter(|r: Rule| rule_shown(r, needle))
}

/// The cursor after its list became `len` rows: cleared for none, the
/// last row when past the end, the first when unset.
pub open spec fn refit_rows(c: ListCursor, len: int) -> ListCursor {
    if len == 0 {
        selected_as(c, None)
    } else {
        match c.selected {
            Some(i) => if i >= len { selected_as(c, Some((len - 1) as usize)) } else { c },
            None => selected_as(c, Some(0)),
        }
    }
}

fn refit_rows_cursor(c: &mut ListCursor, len: usize)
    ensures
        *final(c) == refit_rows(*old(c), len as int),
{
    if len == 0 {
        c.select(None);
    } else {
        match c.selected {
            Some(i) => {
                if i >= len {
                    c.select(Some(len - 1));
                }
            },
            None => c.select(Some(0)),
        }
    }
}

/// The Rules page.
#[derive(Debug)]
pub struct RulesState {
    pub tab: RulesTab,
    /// Every rule, before filtering.
    pub all_rules: Vec<Rule>,
    /// The rules shown under the filter.
    pub rules: Vec<Rule>,
    pub filter: String,
    pub rules_state: ListCursor,
    /// The rule providers, by name.
    pub providers: Vec<(String, RuleProvider)>,
    pub providers_state: ListCursor,
}

impl RulesState {
    /// An empty page on the Rules tab.
    pub fn new() -> (r: Self)
        ensures
            r.tab == RulesTab::Rules,
            r.all_rules@.len() == 0,
            r.rules@.len() == 0,
            r.filter@.len() == 0,
            r.rules_state == (ListCursor { selected: None, offset: 0 }),
            r.providers@.len() == 0,
            r.providers_state == (ListCursor { selected: None, offset: 0 }),
    {
        RulesState {
            tab: RulesTab::Rules,
            all_rules: Vec::new(),
            rules: Vec::new(),
            filter: String::new(),
            rules_state: ListCursor::default(),
            providers: Vec::new(),
            providers_state: ListCursor::default(),
        }
    }

    /// Replaces the rules and refreshes the shown ones.
    pub fn update_rules(&mut self, rules: Vec<Rule>)
        ensures
            final(self).all_rules == rules,
            final(self).rules@ == shown_rules(rules@, old(self).filter@),
            final(self).rules_state == refit_rows(old(self).rules_state, final(self).rules@.len() as int),
            final(self).filter == old(self).filter,
            final(self).tab == old(self).tab,
            final(self).providers == old(self).providers,
    {
        self.all_rules = rules;
        self.refresh_rules();
    }

    /// Replaces the providers (one per name), ordered by name, and re-fits
    /// their selection.
    pub fn update_providers(&mut self, providers: Vec<(String, RuleProvider)>)
        ensures
            final(self).providers@ == sort_by(providers@, provider_order()),
            final(self).providers_state == refit_rows(old(self).providers_state, providers@.len() as int),
            final(self).rules == old(self).rules,
            final(self).tab == old(self).tab,
    {
        self.providers = sort_providers(providers);
        proof {
            crate::sort::lemma_sort_elements(providers@, provider_order());
        }
        refit_rows_cursor(&mut self.providers_state, self.providers.len());
    }

    /// Sets the keyword filter and refreshes the shown rules.
    pub fn set_filter(&mut self, filter: String)
        ensures
            final(self).filter == filter,
            final(self).all_rules == old(self).all_rules,
            final(self).rules@ == shown_rules(old(self).all_rules@, filter@),
            final(self).rules_state == refit_rows(old(self).rules_state, final(self).rules@.len() as int),
            final(self).tab == old(self).tab,
    {
        self.filter = filter;
        self.refresh_rules();
    }

    /// Switches between the Rules and Providers tabs.
    pub fn toggle_tab(&mut self)
        ensures
            final(self).tab == (if old(self).tab == RulesTab::Rules { RulesTab::Providers } else { RulesTab::Rules }),
            final(self).rules == old(self).rules,
            final(self).rules_state == old(self).rules_state,
            final(self).providers_state == old(self).providers_state,
    {
        self.tab = match self.tab {
            RulesTab::Rules => RulesTab::Providers,
            RulesTab::Providers => RulesTab::Rules,
        };
    }

    /// The selected shown rule.
    pub fn selected_rule(&self) -> (r: Option<&Rule>)
        ensures
            match self.rules_state.selected {
                Some(i) => if i < self.rules@.len() { r == Some(&self.rules@[i as int]) } else { r is None },
                None => r is None,
            },
    {
        match self.rules_state.selected {
            Some(i) => if i < self.rules.len() {
                Some(&self.rules[i])
            } else {
                None
            },
            None => None,
        }
    }

    /// The name of the selected provider.
    pub fn selected_provider_name(&self) -> (r: Option<String>)
        ensures
            match self.providers_state.selected {
                Some(i) => if i < self.providers@.len() {
                    r is Some && r.unwrap()@ == self.providers@[i as int].0@
                } else {
                    r is None
                },
                None => r is None,
            },
    {
        match self.providers_state.selected {
            Some(i) => if i < self.providers.len() {
                Some(self.providers[i].0.clone())
            } else {
                None
            },
            None => None,
        }
    }

    /// Selects the next row of the current tab, wrapping to the first.
    pub fn on_down_key(&mut self)
        ensures
            final(self).tab == old(self).tab,
            old(self).tab == RulesTab::Rules ==> final(self).providers_state == old(self).providers_state
                && final(self).rules_state == if old(self).rules@.len() == 0 {
                old(self).rules_state
            } else {
                selected_as(old(self).rules_state, Some(row_below(old(self).rules_state.selected, old(self).rules@.len() as int) as usize))
            },
            old(self).tab == RulesTab::Providers ==> final(self).rules_state == old(self).rules_state
                && final(self).providers_state == if old(self).providers@.len() == 0 {
                old(self).providers_state
            } else {
                selected_as(
                    old(self).providers_state,
                    Some(row_below(old(self).providers_state.selected, old(self).providers@.len() as int) as usize),
                )
            },
    {
        match self.tab {
            RulesTab::Rules => select_below(&mut self.rules_state, self.rules.len()),
            RulesTab::Providers => select_below(&mut self.providers_state, self.providers.len()),
        }
    }

    /// Selects the previous row of the current tab, wrapping to the last
    /// (also without a selection).
    pub fn on_up_key(&mut self)
        ensures
            final(self).tab == old(self).tab,
            old(self).tab == RulesTab::Rules ==> final(self).providers_state == old(self).providers_state
                && final(self).rules_state == if old(self).rules@.len() == 0 {
                old(self).rules_state
            } else {
                selected_as(old(self).rules_state, Some(row_above(old(self).rules_state.selected, old(self).rules@.len() as int) as usize))
            },
            old(self).tab == RulesTab::Providers ==> final(self).rules_state == old(self).rules_state
                && final(self).providers_state == if old(self).providers@.len() == 0 {
                old(self).providers_state
            } else {
                selected_as(
                    old(self).providers_state,
                    Some(row_above(old(self).providers_state.selected, old(self).providers@.len() as int) as usize),
                )
            },
    {
        match self.tab {
            RulesTab::Rules => select_above(&mut self.rules_state, self.rules.len()),
            RulesTab::Providers => select_above(&mut self.providers_state, self.providers.len()),
        }
    }

    fn refresh_rules(&mut self)
        ensures
            final(self).rules@ == shown_rules(old(self).all_rules@, old(self).filter@),
            final(self).rules_state == refit_rows(old(self).rules_state, final(self).rules@.len() as int),
            final(self).all_rules == old(self).all_rules,
            final(self).filter == old(self).filter,
            final(self).tab == old(self).tab,
            final(self).providers == old(self).providers,
            final(self).providers_state == old(self).providers_state,
    {
        let mut shown: Vec<Rule> = Vec::new();
        let mut i: usize = 0;
        let ghost all = self.all_rules@;
        let ghost f = self.filter@;
        proof {
            reveal(Seq::filter);
            assert(all.take(0) =~= Seq::<Rule>::empty());
        }
        while i < self.all_rules.len()
            invariant
                i <= all.len(),
                all == self.all_rules@,
                f == self.filter@,
                shown@ == shown_rules(all.take(i as int), f),
            decreases all.len() - i,
        {
            proof {
                reveal(Seq::filter);
                assert(all.take(i + 1).drop_last() =~= all.take(i as int));
                assert(all.take(i + 1).last() == all[i as int]);
            }
            if rule_matches(&self.all_rules[i], self.filter.as_str()) {
                shown.push(copy_rule(&self.all_rules[i]));
            }
            i = i + 1;
        }
        assert(all.take(i as int) =~= all);
        self.rules = shown;
        refit_rows_cursor(&mut self.rules_state, self.rules.len());
    }
}

/// Providers sorted stably by name.
pub fn sort_providers(v: Vec<(String, RuleProvider)>) -> (r: Vec<(String, RuleProvider)>)
    ensures
        r@ == sort_by(v@, provider_order()),
{
    let ghost orig = v@;
    let ghost lt = provider_order();
    let mut rest = v;
    let mut out: Vec<(String, RuleProvider)> = Vec::new();
    let mut k: usize = 0;
    let total: usize = rest.len();
    assert(orig.take(0) =~= Seq::<(String, RuleProvider)>::empty());
    while rest.len() > 0
        invariant
            k + rest@.len() == total,
            orig.len() == total,
            rest@ == orig.skip(k as int),
            out@ == sort_by(orig.take(k as int), lt),
            lt == provider_order(),
        decreases rest@.len(),
    {
        let x = rest.remove(0);
        assert(x == orig[k as int]);
        let mut j: usize = out.len();
        while j > 0 && str_less(x.0.as_str(), out[j - 1].0.as_str(), false)
            invariant
                j <= out@.len(),
                forall|i: int| j <= i < out@.len() ==> lt(x, #[trigger] out@[i]),
                lt == provider_order(),
            decreases j,
        {
            j = j - 1;
        }
        proof {
            lemma_insert_at(out@, x, lt, j as int);
            lemma_sort_step(orig, k as int, lt);
            assert(out@.take(j as int).push(x) + out@.skip(j as int) =~= out@.insert(j as int, x));
            assert(rest@ =~= orig.skip(k + 1));
        }
        out.insert(j, x);
        k = k + 1;
    }
    assert(orig.take(k as int) =~= orig);
    out
}

} // verus!

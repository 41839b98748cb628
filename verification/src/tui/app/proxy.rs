//! The Proxies page: groups and their members, a name filter over the
//! members, the delay index of every proxy, and which delay tests are
//! running.

use vstd::prelude::*;
use crate::app::proxy::{default_member_row, group_at, kept_group_row, kept_member_row, member_at, now_or_first};
use crate::groups::{
    group_position, has_members, listed_group, member_groups, members, name_order, normalize_groups, position_of,
    same_but_members, sort_names, group_order,
};
use crate::sort::sort_by;
use crate::text::{
    ascii_lowercase, contains_seq, lemma_ascii_lowercase_idempotent, lemma_contains_lowercased, lowercase,
    lowers_as_ascii, str_contains, str_eq, to_lowercase,
};
use crate::tui::canvas::{entry_index, keys_distinct};
use crate::tui::models::{DelayHistory, Extra, Groups, Proxy};
use crate::tui::nav::{follow_offset, move_in_range, move_list_cursor, selected_as, start_index, wrapped_index, ListCursor};

verus! {

pub use crate::app::proxy::ProxyFocus;

/// The members a filter lets through: all of them for a filter that is
/// empty once lowercased, else those whose lowercase name contains the
/// lowercase filter.
pub open spec fn visible_members(ms: Seq<String>, filter: Seq<char>) -> Seq<String> {
    if lowercase(filter).len() == 0 {
        ms
    } else {
        ms.filter(|n: String| contains_seq(lowercase(n@), lowercase(filter)))
    }
}

/// A member whose name contains the filter as written, capitals
/// included, passes the filter: names and filter are compared in
/// lowercase. Stated for text whose lowercase is its ASCII lowercase (all
/// ASCII text, as `to_lowercase` ensures).
pub proof fn lemma_member_passes_verbatim(ms: Seq<String>, filter: Seq<char>, i: int)
    requires
        0 <= i < ms.len(),
        lowers_as_ascii(filter),
        lowers_as_ascii(ms[i]@),
        contains_seq(ms[i]@, filter),
    ensures
        visible_members(ms, filter).contains(ms[i]),
{
    assert(ascii_lowercase(filter).len() == filter.len());
    if filter.len() > 0 {
        lemma_contains_lowercased(ms[i]@, filter);
        let f = |n: String| contains_seq(lowercase(n@), lowercase(filter));
        ms.filter_lemma(f);
        assert(f(ms[i]));
    }
}

/// The filter's case does not matter: a filter and the same filter in
/// lowercase let the same members through, in the same order. Stated for
/// text whose lowercase is its ASCII lowercase.
pub proof fn lemma_member_filter_ignores_case(ms: Seq<String>, filter: Seq<char>)
    requires
        lowers_as_ascii(filter),
        lowers_as_ascii(ascii_lowercase(filter)),
    ensures
        visible_members(ms, filter) == visible_members(ms, ascii_lowercase(filter)),
{
    lemma_ascii_lowercase_idempotent(filter);
    let p = |n: String| contains_seq(lowercase(n@), lowercase(filter));
    let q = |n: String| contains_seq(lowercase(n@), lowercase(ascii_lowercase(filter)));
    assert(p =~= q);
}

/// The member list shown for a group: the visible members, sorted by
/// name with ASCII case ignored.
pub open spec fn shown_members(raw: Seq<String>, filter: Seq<char>) -> Seq<String> {
    sort_by(visible_members(raw, filter), name_order())
}

/// The position of the last proxy named `name`.
pub open spec fn last_named(ps: Seq<Proxy>, name: Seq<char>) -> Option<int>
    decreases ps.len(),
{
    if ps.len() == 0 {
        None
    } else if ps.last().name@ == name {
        Some(ps.len() - 1)
    } else {
        last_named(ps.drop_last(), name)
    }
}

proof fn lemma_last_named(ps: Seq<Proxy>, name: Seq<char>)
    ensures
        last_named(ps, name) matches Some(i) ==> 0 <= i < ps.len() && ps[i].name@ == name,
    decreases ps.len(),
{
    if ps.len() > 0 && ps.last().name@ != name {
        lemma_last_named(ps.drop_last(), name);
    }
}

/// The entry kept for `name`, if any.
pub open spec fn extra_of(entries: Seq<(String, Extra)>, name: Seq<char>) -> Option<Extra> {
    match entry_index(entries, name) {
        Some(i) => Some(entries[i].1),
        None => None,
    }
}

/// The delay index holds, for every proxy name of `ps`, the liveness and
/// the delay history of the last proxy of that name, and nothing else.
pub open spec fn indexes(entries: Seq<(String, Extra)>, ps: Seq<Proxy>) -> bool {
    &&& keys_distinct(entries)
    &&& forall|name: Seq<char>|
        #![trigger extra_of(entries, name)]
        match last_named(ps, name) {
            Some(i) => extra_of(entries, name) matches Some(e) && e.alive == ps[i].alive && e.history@
                == ps[i].history@,
            None => extra_of(entries, name) is None,
        }
}

/// Whether no name occurs twice.
pub open spec fn names_distinct(s: Seq<String>) -> bool {
    forall|i: int, j: int| 0 <= i < j < s.len() ==> s[i]@ != s[j]@
}

/// The names of `s`.
pub open spec fn name_set(s: Seq<String>) -> Set<Seq<char>> {
    Set::new(|n: Seq<char>| exists|i: int| 0 <= i < s.len() && s[i]@ == n)
}

/// A copy of a delay history.
pub fn copy_history(h: &Vec<DelayHistory>) -> (r: Vec<DelayHistory>)
    ensures
        r@ == h@,
{
    let mut r: Vec<DelayHistory> = Vec::new();
    let mut i: usize = 0;
    while i < h.len()
        invariant
            i <= h@.len(),
            r@ == h@.take(i as int),
        decreases h@.len() - i,
    {
        r.push(DelayHistory { time: h[i].time.clone(), delay: h[i].delay });
        i = i + 1;
        assert(r@ =~= h@.take(i as int));
    }
    assert(h@.take(i as int) =~= h@);
    r
}

fn find_entry(entries: &Vec<(String, Extra)>, name: &str) -> (r: Option<usize>)
    requires
        keys_distinct(entries@),
    ensures
        match r {
            Some(i) => i < entries@.len() && entry_index(entries@, name@) == Some(i as int),
            None => entry_index(entries@, name@) is None,
        },
{
    let n = entries.len();
    let mut i: usize = 0;
    while i < n
        invariant
            n == entries@.len(),
            i <= n,
            keys_distinct(entries@),
            forall|k: int| 0 <= k < i ==> entries@[k].0@ != name@,
        decreases n - i,
    {
        if str_eq(entries[i].0.as_str(), name) {
            proof {
                assert(entries@[i as int].0@ == name@);
                let w = choose|k: int| 0 <= k < entries@.len() && entries@[k].0@ == name@;
                if w != i {
                    assert(entries@[w].0@ == entries@[i as int].0@);
                }
            }
            return Some(i);
        }
        i = i + 1;
    }
    None
}

/// Stores `value` under `key`, replacing what was there.
fn upsert(entries: &mut Vec<(String, Extra)>, key: String, value: Extra)
    requires
        keys_distinct(old(entries)@),
    ensures
        keys_distinct(final(entries)@),
        extra_of(final(entries)@, key@) == Some(value),
        forall|n: Seq<char>| n != key@ ==> #[trigger] extra_of(final(entries)@, n) == extra_of(old(entries)@, n),
{
    let ghost e0 = entries@;
    match find_entry(entries, key.as_str()) {
        Some(i) => {
            let ghost k0 = entries@[i as int].0;
            entries.set(i, (key, value));
            proof {
                let e1 = entries@;
                assert forall|a: int, b: int| 0 <= a < b < e1.len() implies e1[a].0@ != e1[b].0@ by {
                    if a != i && b != i {
                        assert(e1[a] == e0[a] && e1[b] == e0[b]);
                    } else if a == i {
                        assert(e1[b] == e0[b]);
                        assert(e0[a].0@ == key@);
                    } else {
                        assert(e1[a] == e0[a]);
                        assert(e0[b].0@ == key@);
                    }
                }
                assert(e1[i as int].0@ == key@);
                let w = choose|k: int| 0 <= k < e1.len() && e1[k].0@ == key@;
                if w != i {
                    assert(e1[w].0@ == e1[i as int].0@);
                }
                assert(entry_index(e1, key@) == Some(i as int));
                assert forall|n: Seq<char>| n != key@ implies #[trigger] extra_of(e1, n) == extra_of(e0, n) by {
                    assert forall|k: int| 0 <= k < e1.len() implies (e1[k].0@ == n <==> e0[k].0@ == n) by {
                        if k == i {
                            assert(e0[k].0@ == key@);
                        } else {
                            assert(e1[k] == e0[k]);
                        }
                    }
                    if exists|k: int| 0 <= k < e0.len() && e0[k].0@ == n {
                        let k0 = choose|k: int| 0 <= k < e0.len() && e0[k].0@ == n;
                        assert(e1[k0].0@ == n);
                        let k1 = choose|k: int| 0 <= k < e1.len() && e1[k].0@ == n;
                        assert(e0[k1].0@ == n);
                        if k0 != k1 {
                            assert(e0[k0].0@ == e0[k1].0@);
                        }
                        assert(k1 != i);
                        assert(e1[k1] == e0[k1]);
                    } else {
                        assert(!exists|k: int| 0 <= k < e1.len() && e1[k].0@ == n);
                    }
                }
            }
        },
        None => {
            entries.push((key, value));
            proof {
                let e1 = entries@;
                let last = e0.len() as int;
                assert forall|a: int, b: int| 0 <= a < b < e1.len() implies e1[a].0@ != e1[b].0@ by {
                    assert(e1[a] == e0[a]);
                    if b < last {
                        assert(e1[b] == e0[b]);
                    } else {
                        assert(e0[a].0@ != key@);
                    }
                }
                assert(e1[last].0@ == key@);
                let w = choose|k: int| 0 <= k < e1.len() && e1[k].0@ == key@;
                if w != last {
                    assert(e1[w] == e0[w]);
                }
                assert forall|n: Seq<char>| n != key@ implies #[trigger] extra_of(e1, n) == extra_of(e0, n) by {
                    if exists|k: int| 0 <= k < e0.len() && e0[k].0@ == n {
                        let k0 = choose|k: int| 0 <= k < e0.len() && e0[k].0@ == n;
                        assert(e1[k0] == e0[k0]);
                        let k1 = choose|k: int| 0 <= k < e1.len() && e1[k].0@ == n;
                        assert(k1 != last);
                        assert(e1[k1] == e0[k1]);
                        if k0 != k1 {
                            assert(e0[k0].0@ == e0[k1].0@);
                        }
                    } else {
                        assert forall|k: int| 0 <= k < e1.len() implies e1[k].0@ != n by {
                            if k < last {
                                assert(e1[k] == e0[k]);
                            }
                        }
                    }
                }
            }
        },
    }
}

/// The delay index of `proxies` (see `indexes`).
pub fn index_delays(proxies: &Vec<Proxy>) -> (r: Vec<(String, Extra)>)
    ensures
        indexes(r@, proxies@),
{
    let ghost ps = proxies@;
    let mut r: Vec<(String, Extra)> = Vec::new();
    let mut k: usize = 0;
    assert(ps.take(0) =~= Seq::<Proxy>::empty());
    while k < proxies.len()
        invariant
            k <= ps.len(),
            ps == proxies@,
            indexes(r@, ps.take(k as int)),
        decreases ps.len() - k,
    {
        let p = &proxies[k];
        let ghost before = r@;
        upsert(&mut r, p.name.clone(), Extra { alive: p.alive, history: copy_history(&p.history) });
        proof {
            let t = ps.take(k + 1);
            assert(t.drop_last() =~= ps.take(k as int));
            assert(t.last() == ps[k as int]);
            assert forall|name: Seq<char>| #![trigger extra_of(r@, name)]
                match last_named(t, name) {
                    Some(i) => extra_of(r@, name) matches Some(e) && e.alive == t[i].alive && e.history@
                        == t[i].history@,
                    None => extra_of(r@, name) is None,
                } by {
                if name != ps[k as int].name@ {
                    assert(extra_of(r@, name) == extra_of(before, name));
                    assert(last_named(t, name) == last_named(ps.take(k as int), name));
                    lemma_last_named(ps.take(k as int), name);
                    match last_named(ps.take(k as int), name) {
                        Some(i) => {
                            assert(t[i] == ps.take(k as int)[i]);
                        },
                        None => {},
                    }
                }
            }
        }
        k = k + 1;
    }
    assert(ps.take(k as int) =~= ps);
    r
}

/// The Proxies page.
#[derive(Debug)]
pub struct ProxyState {
    pub focus: ProxyFocus,
    /// The full, sorted member list of each group, before filtering.
    pub raw_members: Vec<Vec<String>>,
    /// The groups as shown: their members filtered and sorted.
    pub groups: Vec<Proxy>,
    /// Liveness and delay history of every proxy, keyed by name.
    pub node_extra: Vec<(String, Extra)>,
    /// Names of the proxies whose delay test runs.
    pub testing: Vec<String>,
    pub filter: String,
    pub group_list_state: ListCursor,
    pub proxy_list_state: ListCursor,
}

impl ProxyState {
    /// The full member list of group `i`, before filtering.
    pub closed spec fn raw(&self, i: int) -> Seq<String> {
        self.raw_members@[i]@
    }

    /// The groups show their members through the filter, the delay index
    /// has one entry per name, and no test is listed twice.
    pub closed spec fn wf(&self) -> bool {
        &&& self.raw_members@.len() == self.groups@.len()
        &&& forall|i: int|
            0 <= i < self.groups@.len() ==> (#[trigger] self.groups@[i]).all is Some && members(self.groups@[i])
                == shown_members(self.raw_members@[i]@, self.filter@)
        &&& keys_distinct(self.node_extra@)
        &&& names_distinct(self.testing@)
    }

    /// An empty page with the focus on the groups and no filter.
    pub fn new() -> (r: Self)
        ensures
            r.wf(),
            r.focus == ProxyFocus::Groups,
            r.groups@.len() == 0,
            r.node_extra@.len() == 0,
            r.testing@.len() == 0,
            r.filter@.len() == 0,
            r.group_list_state == (ListCursor { selected: None, offset: 0 }),
            r.proxy_list_state == (ListCursor { selected: None, offset: 0 }),
    {
        ProxyState {
            focus: ProxyFocus::Groups,
            raw_members: Vec::new(),
            groups: Vec::new(),
            node_extra: Vec::new(),
            testing: Vec::new(),
            filter: String::new(),
            group_list_state: ListCursor::default(),
            proxy_list_state: ListCursor::default(),
        }
    }

    /// The members of `raw` that the filter shows, sorted.
    fn shown(&self, raw: &Vec<String>) -> (r: Vec<String>)
        ensures
            r@ == shown_members(raw@, self.filter@),
    {
        let f = to_lowercase(self.filter.as_str());
        let mut kept: Vec<String> = Vec::new();
        let mut i: usize = 0;
        let ghost pred = |n: String| contains_seq(lowercase(n@), lowercase(self.filter@));
        proof {
            reveal(Seq::filter);
            assert(raw@.take(0) =~= Seq::<String>::empty());
        }
        while i < raw.len()
            invariant
                i <= raw@.len(),
                f@ == lowercase(self.filter@),
                pred == (|n: String| contains_seq(lowercase(n@), lowercase(self.filter@))),
                kept@ == (if f@.len() == 0 { raw@.take(i as int) } else { raw@.take(i as int).filter(pred) }),
            decreases raw@.len() - i,
        {
            let name = &raw[i];
            proof {
                reveal(Seq::filter);
                assert(raw@.take(i + 1).drop_last() =~= raw@.take(i as int));
                assert(raw@.take(i + 1).last() == raw@[i as int]);
            }
            let keep = if f.as_str().unicode_len() == 0 {
                true
            } else {
                let l = to_lowercase(name.as_str());
                str_contains(l.as_str(), f.as_str())
            };
            if keep {
                kept.push(name.clone());
            }
            i = i + 1;
            proof {
                if f@.len() == 0 {
                    assert(kept@ =~= raw@.take(i as int));
                }
            }
        }
        assert(raw@.take(i as int) =~= raw@);
        sort_names(kept)
    }

    /// Recomputes the shown member lists from the full ones.
    fn refresh_view(&mut self)
        requires
            old(self).raw_members@.len() == old(self).groups@.len(),
            forall|i: int| 0 <= i < old(self).groups@.len() ==> (#[trigger] old(self).groups@[i]).all is Some,
        ensures
            final(self).raw_members == old(self).raw_members,
            final(self).filter == old(self).filter,
            final(self).groups@.len() == old(self).groups@.len(),
            forall|i: int|
                0 <= i < final(self).groups@.len() ==> {
                    &&& same_but_members(#[trigger] final(self).groups@[i], old(self).groups@[i])
                    &&& final(self).groups@[i].all is Some
                    &&& members(final(self).groups@[i]) == shown_members(
                        old(self).raw_members@[i]@,
                        old(self).filter@,
                    )
                },
            final(self).node_extra == old(self).node_extra,
            final(self).testing == old(self).testing,
            final(self).focus == old(self).focus,
            final(self).group_list_state == old(self).group_list_state,
            final(self).proxy_list_state == old(self).proxy_list_state,
    {
        let n = self.groups.len();
        let mut i: usize = 0;
        while i < n
            invariant
                n == self.groups@.len(),
                n == old(self).groups@.len(),
                i <= n,
                self.raw_members == old(self).raw_members,
                self.filter == old(self).filter,
                self.node_extra == old(self).node_extra,
                self.testing == old(self).testing,
                self.focus == old(self).focus,
                self.group_list_state == old(self).group_list_state,
                self.proxy_list_state == old(self).proxy_list_state,
                self.raw_members@.len() == n,
                forall|j: int| 0 <= j < n ==> (#[trigger] old(self).groups@[j]).all is Some,
                forall|j: int|
                    0 <= j < n ==> {
                        &&& same_but_members(#[trigger] self.groups@[j], old(self).groups@[j])
                        &&& self.groups@[j].all is Some
                        &&& (j < i ==> members(self.groups@[j]) == shown_members(
                            old(self).raw_members@[j]@,
                            old(self).filter@,
                        ))
                        &&& (j >= i ==> self.groups@[j] == old(self).groups@[j])
                    },
            decreases n - i,
        {
            let view = self.shown(&self.raw_members[i]);
            let mut g = self.groups.remove(i);
            g.all = Some(view);
            self.groups.insert(i, g);
            i = i + 1;
        }
    }

    /// The group row and member row kept across a refresh.
    fn selected_group_name(&self) -> (r: Option<String>)
        ensures
            match group_at(self.groups@, self.group_list_state.selected) {
                Some(g) => r is Some && r.unwrap()@ == g.name@,
                None => r is None,
            },
    {
        match self.group_list_state.selected {
            Some(i) => if i < self.groups.len() {
                Some(self.groups[i].name.clone())
            } else {
                None
            },
            None => None,
        }
    }

    fn selected_member_name(&self) -> (r: Option<String>)
        ensures
            match member_at(self.groups@, self.group_list_state.selected, self.proxy_list_state.selected) {
                Some(n) => r is Some && r.unwrap()@ == n,
                None => r is None,
            },
    {
        match self.selected_node() {
            Some((_, node)) => {
                let mut s = String::new();
                s.append(node);
                Some(s)
            },
            None => None,
        }
    }

    /// Takes a new list of proxies: indexes every proxy's liveness and
    /// delays by name (the last proxy of a name wins), keeps the groups
    /// with members sorted by name (members sorted too, ASCII case
    /// ignored), shows them through the filter, and keeps the selection by
    /// name: the same group, else the first, and in it the same member,
    /// else the current member, else the first. With no groups both
    /// selections are cleared.
    pub fn update_groups(&mut self, groups_data: Groups)
        requires
            old(self).wf(),
        ensures
            final(self).wf(),
            indexes(final(self).node_extra@, groups_data.proxies@),
            final(self).groups@.len() == sort_by(member_groups(groups_data.proxies@), group_order()).len(),
            forall|i: int|
                0 <= i < final(self).groups@.len() ==> {
                    &&& same_but_members(#[trigger] final(self).groups@[i], listed_group(groups_data.proxies@, i))
                    &&& final(self).raw(i) == sort_by(members(listed_group(groups_data.proxies@, i)), name_order())
                    &&& final(self).groups@[i].all is Some
                    &&& members(final(self).groups@[i]) == shown_members(final(self).raw(i), final(self).filter@)
                },
            final(self).filter == old(self).filter,
            final(self).testing == old(self).testing,
            final(self).focus == old(self).focus,
            final(self).groups@.len() == 0 ==> final(self).group_list_state == selected_as(
                old(self).group_list_state,
                None,
            ) && final(self).proxy_list_state == selected_as(old(self).proxy_list_state, None),
            final(self).groups@.len() > 0 ==> {
                let gi = kept_group_row(
                    final(self).groups@,
                    match group_at(old(self).groups@, old(self).group_list_state.selected) {
                        Some(g) => Some(g.name@),
                        None => None,
                    },
                );
                let pi = kept_member_row(
                    final(self).groups@[gi],
                    member_at(old(self).groups@, old(self).group_list_state.selected, old(self).proxy_list_state.selected),
                );
                &&& final(self).group_list_state == selected_as(old(self).group_list_state, Some(gi as usize))
                &&& final(self).proxy_list_state == selected_as(old(self).proxy_list_state, Some(pi as usize))
            },
    {
        let old_group = self.selected_group_name();
        let old_member = self.selected_member_name();
        self.node_extra = index_delays(&groups_data.proxies);
        let ghost ps = groups_data.proxies@;
        let groups = normalize_groups(groups_data.proxies);
        let ghost ng = groups@;
        let mut raw: Vec<Vec<String>> = Vec::new();
        let mut rest = groups;
        let mut kept: Vec<Proxy> = Vec::new();
        let mut k: usize = 0;
        let total: usize = rest.len();
        while rest.len() > 0
            invariant
                k + rest@.len() == total,
                ng.len() == total,
                rest@ == ng.skip(k as int),
                kept@.len() == k,
                raw@.len() == k,
                forall|i: int| 0 <= i < ng.len() ==> (#[trigger] ng[i]).all is Some,
                forall|i: int|
                    0 <= i < k ==> {
                        &&& same_but_members(#[trigger] kept@[i], ng[i])
                        &&& kept@[i].all is Some
                        &&& raw@[i]@ == members(ng[i])
                    },
            decreases rest@.len(),
        {
            let mut g = rest.remove(0);
            assert(g == ng[k as int]);
            let all = g.all.take();
            let full = match all {
                Some(v) => v,
                None => Vec::new(),
            };
            g.all = Some(Vec::new());
            raw.push(full);
            kept.push(g);
            k = k + 1;
            assert(rest@ =~= ng.skip(k as int));
        }
        self.raw_members = raw;
        self.groups = kept;
        self.refresh_view();
        proof {
            assert forall|i: int| 0 <= i < self.groups@.len() implies #[trigger] self.groups@[i].all is Some
                && members(self.groups@[i]) == shown_members(self.raw_members@[i]@, self.filter@) by {}
        }
        if self.groups.len() == 0 {
            self.group_list_state.select(None);
            self.proxy_list_state.select(None);
            return;
        }
        let gi: usize = match &old_group {
            Some(n) => match group_position(&self.groups, n.as_str()) {
                Some(i) => i,
                None => 0,
            },
            None => 0,
        };
        self.group_list_state.select(Some(gi));
        let pi = self.member_row(gi, &old_member);
        self.proxy_list_state.select(Some(pi));
    }

    fn member_row(&self, gi: usize, old_member: &Option<String>) -> (r: usize)
        requires
            gi < self.groups@.len(),
        ensures
            r == kept_member_row(
                self.groups@[gi as int],
                match old_member {
                    Some(s) => Some(s@),
                    None => None,
                },
            ),
    {
        let g = &self.groups[gi];
        match &g.all {
            Some(all) => {
                let now_row: usize = match &g.now {
                    Some(n) => match position_of(all, n.as_str()) {
                        Some(j) => j,
                        None => 0,
                    },
                    None => 0,
                };
                match old_member {
                    Some(m) => match position_of(all, m.as_str()) {
                        Some(j) => j,
                        None => now_row,
                    },
                    None => now_row,
                }
            },
            None => 0,
        }
    }

    /// Sets the name filter of the members (empty shows all), and fits the
    /// member selection to the selected group's shown members: cleared for
    /// none, moved to the last when past the end, the first when unset.
    pub fn set_filter(&mut self, filter: String)
        requires
            old(self).wf(),
        ensures
            final(self).wf(),
            final(self).filter == filter,
            final(self).groups@.len() == old(self).groups@.len(),
            forall|i: int|
                0 <= i < final(self).groups@.len() ==> {
                    &&& same_but_members(#[trigger] final(self).groups@[i], old(self).groups@[i])
                    &&& final(self).raw(i) == old(self).raw(i)
                    &&& final(self).groups@[i].all is Some
                    &&& members(final(self).groups@[i]) == shown_members(final(self).raw(i), filter@)
                },
            final(self).group_list_state == old(self).group_list_state,
            final(self).proxy_list_state == match group_at(final(self).groups@, old(self).group_list_state.selected) {
                Some(g) => fitted_member_cursor(old(self).proxy_list_state, members(g).len() as int),
                None => old(self).proxy_list_state,
            },
            final(self).node_extra == old(self).node_extra,
            final(self).testing == old(self).testing,
    {
        self.filter = filter;
        self.refresh_view();
        self.clamp_selection();
    }

    fn clamp_selection(&mut self)
        ensures
            final(self).groups == old(self).groups,
            final(self).raw_members == old(self).raw_members,
            final(self).filter == old(self).filter,
            final(self).node_extra == old(self).node_extra,
            final(self).testing == old(self).testing,
            final(self).group_list_state == old(self).group_list_state,
            final(self).proxy_list_state == match group_at(old(self).groups@, old(self).group_list_state.selected) {
                Some(g) => if g.all is Some {
                    fitted_member_cursor(old(self).proxy_list_state, members(g).len() as int)
                } else {
                    old(self).proxy_list_state
                },
                None => old(self).proxy_list_state,
            },
    {
        if let Some(gi) = self.group_list_state.selected {
            if gi < self.groups.len() {
                let len: Option<usize> = match &self.groups[gi].all {
                    Some(all) => Some(all.len()),
                    None => None,
                };
                if let Some(len) = len {
                    if len == 0 {
                        self.proxy_list_state.select(None);
                    } else {
                        match self.proxy_list_state.selected {
                            Some(pi) => {
                                if pi >= len {
                                    self.proxy_list_state.select(Some(len - 1));
                                }
                            },
                            None => self.proxy_list_state.select(Some(0)),
                        }
                    }
                }
            }
        }
    }

    /// The selected group's name and the selected member's name, when both
    /// selections are inside their lists.
    pub fn selected_node(&self) -> (r: Option<(&str, &str)>)
        ensures
            match member_at(self.groups@, self.group_list_state.selected, self.proxy_list_state.selected) {
                Some(n) => r is Some && r.unwrap().1@ == n && r.unwrap().0@ == group_at(
                    self.groups@,
                    self.group_list_state.selected,
                ).unwrap().name@,
                None => r is None,
            },
    {
        match self.group_list_state.selected {
            Some(i) => if i < self.groups.len() {
                match self.proxy_list_state.selected {
                    Some(p) => match &self.groups[i].all {
                        Some(all) => if p < all.len() {
                            Some((self.groups[i].name.as_str(), all[p].as_str()))
                        } else {
                            None
                        },
                        None => None,
                    },
                    None => None,
                }
            } else {
                None
            },
            None => None,
        }
    }

    /// The selected group's name, when the selection is inside the list.
    pub fn selected_group_name_str(&self) -> (r: Option<&str>)
        ensures
            match group_at(self.groups@, self.group_list_state.selected) {
                Some(g) => r is Some && r.unwrap()@ == g.name@,
                None => r is None,
            },
    {
        match self.group_list_state.selected {
            Some(i) => if i < self.groups.len() {
                Some(self.groups[i].name.as_str())
            } else {
                None
            },
            None => None,
        }
    }

    /// Marks exactly the given proxies as being tested.
    pub fn set_node_testing(&mut self, nodes: &[String])
        requires
            old(self).wf(),
        ensures
            final(self).wf(),
            name_set(final(self).testing@) == name_set(nodes@),
            final(self).groups == old(self).groups,
            final(self).raw_members == old(self).raw_members,
            final(self).filter == old(self).filter,
            final(self).node_extra == old(self).node_extra,
            final(self).group_list_state == old(self).group_list_state,
            final(self).proxy_list_state == old(self).proxy_list_state,
    {
        let mut t: Vec<String> = Vec::new();
        let mut i: usize = 0;
        while i < nodes.len()
            invariant
                i <= nodes@.len(),
                names_distinct(t@),
                name_set(t@) == name_set(nodes@.take(i as int)),
            decreases nodes@.len() - i,
        {
            let ghost t0 = t@;
            if !contains_name(&t, nodes[i].as_str()) {
                t.push(nodes[i].clone());
            }
            i = i + 1;
            proof {
                let pre = nodes@.take(i - 1);
                let cur = nodes@.take(i as int);
                assert forall|n: Seq<char>| name_set(t@).contains(n) <==> name_set(cur).contains(n) by {
                    if name_set(cur).contains(n) {
                        let j = choose|j: int| 0 <= j < cur.len() && cur[j]@ == n;
                        if j < i - 1 {
                            assert(pre[j] == cur[j]);
                            assert(name_set(pre).contains(n));
                            assert(name_set(t0).contains(n));
                            let k = choose|k: int| 0 <= k < t0.len() && t0[k]@ == n;
                            assert(t@[k] == t0[k]);
                        } else {
                            if exists|k: int| 0 <= k < t0.len() && t0[k]@ == n {
                                let k = choose|k: int| 0 <= k < t0.len() && t0[k]@ == n;
                                assert(t@[k] == t0[k]);
                            } else {
                                assert(t@[t0.len() as int]@ == n);
                            }
                        }
                    }
                    if name_set(t@).contains(n) {
                        let k = choose|k: int| 0 <= k < t@.len() && t@[k]@ == n;
                        if k < t0.len() {
                            assert(t@[k] == t0[k]);
                            assert(name_set(t0).contains(n));
                            assert(name_set(pre).contains(n));
                            let j = choose|j: int| 0 <= j < pre.len() && pre[j]@ == n;
                            assert(cur[j] == pre[j]);
                        } else {
                            assert(cur[i - 1] == nodes@[i - 1]);
                        }
                    }
                }
                assert(name_set(t@) =~= name_set(cur));
            }
        }
        assert(nodes@.take(i as int) =~= nodes@);
        self.testing = t;
    }

    /// Whether the delay test of a proxy runs.
    pub fn is_node_testing(&self, node: &str) -> (r: bool)
        ensures
            r == name_set(self.testing@).contains(node@),
    {
        contains_name(&self.testing, node)
    }

    /// The liveness and delays indexed for a proxy name.
    pub fn node_extra_of(&self, node: &str) -> (r: Option<&Extra>)
        requires
            self.wf(),
        ensures
            match extra_of(self.node_extra@, node@) {
                Some(e) => r == Some(&e),
                None => r is None,
            },
    {
        match find_entry(&self.node_extra, node) {
            Some(i) => Some(&self.node_extra[i].1),
            None => None,
        }
    }

    /// The full member list of the selected group, before filtering (the
    /// first group of that name); empty without a selection.
    pub fn selected_group_nodes(&self) -> (r: Vec<String>)
        requires
            self.wf(),
        ensures
            match group_at(self.groups@, self.group_list_state.selected) {
                Some(g) => match crate::groups::group_index_of(self.groups@, g.name@) {
                    Some(j) => r@ == self.raw(j),
                    None => r@.len() == 0,
                },
                None => r@.len() == 0,
            },
    {
        match self.selected_group_name_str() {
            None => Vec::new(),
            Some(name) => match group_position(&self.groups, name) {
                Some(j) => copy_names(&self.raw_members[j]),
                None => Vec::new(),
            },
        }
    }

    /// Records a finished delay test of a proxy: it is no longer being
    /// tested, it is alive unless the delay is 0 (a timeout), and the delay
    /// ends its history, which keeps the last 10.
    pub fn apply_node_delay(&mut self, node: &str, delay: u16)
        requires
            old(self).wf(),
        ensures
            final(self).wf(),
            name_set(final(self).testing@) == name_set(old(self).testing@).remove(node@),
            extra_of(final(self).node_extra@, node@) matches Some(e) && e.alive == (delay != 0) && {
                let prev = match extra_of(old(self).node_extra@, node@) {
                    Some(p) => p.history@,
                    None => Seq::empty(),
                };
                &&& e.history@.len() > 0
                &&& e.history@.last().delay == delay
                &&& e.history@.last().time@.len() == 0
                &&& e.history@.drop_last() == if prev.len() + 1 > 10 { prev.skip(1) } else { prev }
            },
            forall|n: Seq<char>|
                n != node@ ==> #[trigger] extra_of(final(self).node_extra@, n) == extra_of(old(self).node_extra@, n),
            final(self).groups@.len() == old(self).groups@.len(),
            forall|i: int| 0 <= i < final(self).groups@.len() ==> #[trigger] final(self).groups@[i] == old(self).groups@[i]
                || (same_but_members(final(self).groups@[i], old(self).groups@[i]) && members(final(self).groups@[i]) == members(old(self).groups@[i])),
            final(self).group_list_state == old(self).group_list_state,
            final(self).proxy_list_state == old(self).proxy_list_state,
    {
        self.remove_testing(node);
        let mut history: Vec<DelayHistory> = match find_entry(&self.node_extra, node) {
            Some(i) => copy_history(&self.node_extra[i].1.history),
            None => Vec::new(),
        };
        let ghost prev = history@;
        history.push(DelayHistory { time: String::new(), delay });
        if history.len() > 10 {
            history.remove(0);
        }
        proof {
            if prev.len() + 1 > 10 {
                assert(history@.drop_last() =~= prev.skip(1));
            } else {
                assert(history@.drop_last() =~= prev);
            }
        }
        let mut key = String::new();
        key.append(node);
        upsert(&mut self.node_extra, key, Extra { alive: delay != 0, history });
        self.refresh_view();
    }

    fn remove_testing(&mut self, node: &str)
        requires
            names_distinct(old(self).testing@),
        ensures
            names_distinct(final(self).testing@),
            name_set(final(self).testing@) == name_set(old(self).testing@).remove(node@),
            final(self).groups == old(self).groups,
            final(self).raw_members == old(self).raw_members,
            final(self).filter == old(self).filter,
            final(self).node_extra == old(self).node_extra,
            final(self).group_list_state == old(self).group_list_state,
            final(self).proxy_list_state == old(self).proxy_list_state,
    {
        let ghost t0 = self.testing@;
        let n = self.testing.len();
        let mut i: usize = 0;
        while i < n
            invariant
                n == self.testing@.len(),
                self.testing@ == t0,
                t0 == old(self).testing@,
                names_distinct(t0),
                i <= n,
                forall|k: int| 0 <= k < i ==> t0[k]@ != node@,
                self.groups == old(self).groups,
                self.raw_members == old(self).raw_members,
                self.filter == old(self).filter,
                self.node_extra == old(self).node_extra,
                self.group_list_state == old(self).group_list_state,
                self.proxy_list_state == old(self).proxy_list_state,
            decreases n - i,
        {
            if str_eq(self.testing[i].as_str(), node) {
                self.testing.remove(i);
                proof {
                    let t1 = self.testing@;
                    assert forall|a: int, b: int| 0 <= a < b < t1.len() implies t1[a]@ != t1[b]@ by {
                        let a0 = if a < i { a } else { a + 1 };
                        let b0 = if b < i { b } else { b + 1 };
                        assert(t1[a] == t0[a0] && t1[b] == t0[b0]);
                    }
                    assert forall|m: Seq<char>| name_set(t1).contains(m) <==> name_set(t0).remove(node@).contains(m) by {
                        if name_set(t1).contains(m) {
                            let k = choose|k: int| 0 <= k < t1.len() && t1[k]@ == m;
                            let k0 = if k < i { k } else { k + 1 };
                            assert(t1[k] == t0[k0]);
                            if m == node@ {
                                assert(t0[i as int]@ == node@);
                                assert(k0 != i);
                            }
                        }
                        if name_set(t0).remove(node@).contains(m) {
                            let k0 = choose|k: int| 0 <= k < t0.len() && t0[k]@ == m;
                            assert(k0 != i);
                            let k = if k0 < i { k0 } else { k0 - 1 };
                            assert(t1[k] == t0[k0]);
                        }
                    }
                    assert(name_set(t1) =~= name_set(t0).remove(node@));
                    assert(t0 == old(self).testing@);
                    assert(name_set(self.testing@) == name_set(old(self).testing@).remove(node@));
                }
                return;
            }
            i = i + 1;
        }
        proof {
            assert(name_set(t0) =~= name_set(t0).remove(node@));
        }
    }

    fn select_default_proxy_for_group(&mut self, group_idx: usize)
        ensures
            final(self).proxy_list_state == selected_as(
                old(self).proxy_list_state,
                default_member_row(old(self).groups@, group_idx),
            ),
            final(self).groups == old(self).groups,
            final(self).raw_members == old(self).raw_members,
            final(self).filter == old(self).filter,
            final(self).node_extra == old(self).node_extra,
            final(self).testing == old(self).testing,
            final(self).group_list_state == old(self).group_list_state,
            final(self).focus == old(self).focus,
    {
        let idx: Option<usize> = if group_idx < self.groups.len() {
            let g = &self.groups[group_idx];
            match &g.all {
                Some(all) => match &g.now {
                    Some(n) => match position_of(all, n.as_str()) {
                        Some(j) => Some(j),
                        None => Some(0),
                    },
                    None => Some(0),
                },
                None => None,
            }
        } else {
            None
        };
        self.proxy_list_state.select(idx);
    }

    fn member_count(&self) -> (r: Option<usize>)
        ensures
            match group_at(self.groups@, self.group_list_state.selected) {
                Some(g) => if g.all is Some { r is Some && r.unwrap() == members(g).len() } else { r is None },
                None => r is None,
            },
    {
        match self.group_list_state.selected {
            Some(i) => if i < self.groups.len() {
                match &self.groups[i].all {
                    Some(all) => Some(all.len()),
                    None => None,
                }
            } else {
                None
            },
            None => None,
        }
    }

    /// Down arrow in a viewport of `viewport` rows: the next group (wrapping
    /// and scrolling) with its current member selected, or the next member
    /// of the selected group (wrapping and scrolling).
    pub fn on_down_key(&mut self, viewport: usize)
        requires
            old(self).focus == ProxyFocus::Groups ==> move_in_range(
                old(self).group_list_state.selected,
                old(self).group_list_state.offset,
                old(self).groups@.len() as usize,
                viewport,
                1i32,
            ),
            old(self).focus == ProxyFocus::Proxies ==> match group_at(old(self).groups@, old(self).group_list_state.selected) {
                Some(g) => move_in_range(
                    old(self).proxy_list_state.selected,
                    old(self).proxy_list_state.offset,
                    members(g).len() as usize,
                    viewport,
                    1i32,
                ),
                None => true,
            },
        ensures
            final(self).groups == old(self).groups,
            final(self).raw_members == old(self).raw_members,
            final(self).filter == old(self).filter,
            final(self).node_extra == old(self).node_extra,
            final(self).testing == old(self).testing,
            final(self).focus == old(self).focus,
            old(self).focus == ProxyFocus::Groups ==> if old(self).groups@.len() == 0 {
                final(self).group_list_state == old(self).group_list_state
                    && final(self).proxy_list_state == old(self).proxy_list_state
            } else {
                stepped(final(self).group_list_state, old(self).group_list_state, old(self).groups@.len() as int, viewport as int, 1)
                    && final(self).proxy_list_state == selected_as(
                    old(self).proxy_list_state,
                    default_member_row(old(self).groups@, final(self).group_list_state.selected.unwrap()),
                )
            },
            old(self).focus == ProxyFocus::Proxies ==> final(self).group_list_state == old(self).group_list_state
                && match group_at(old(self).groups@, old(self).group_list_state.selected) {
                Some(g) => if g.all is Some && members(g).len() > 0 {
                    stepped(final(self).proxy_list_state, old(self).proxy_list_state, members(g).len() as int, viewport as int, 1)
                } else {
                    final(self).proxy_list_state == old(self).proxy_list_state
                },
                None => final(self).proxy_list_state == old(self).proxy_list_state,
            },
    {
        self.step(viewport, 1);
    }

    /// Up arrow: like `on_down_key`, one row up.
    pub fn on_up_key(&mut self, viewport: usize)
        requires
            old(self).focus == ProxyFocus::Groups ==> move_in_range(
                old(self).group_list_state.selected,
                old(self).group_list_state.offset,
                old(self).groups@.len() as usize,
                viewport,
                -1i32,
            ),
            old(self).focus == ProxyFocus::Proxies ==> match group_at(old(self).groups@, old(self).group_list_state.selected) {
                Some(g) => move_in_range(
                    old(self).proxy_list_state.selected,
                    old(self).proxy_list_state.offset,
                    members(g).len() as usize,
                    viewport,
                    -1i32,
                ),
                None => true,
            },
        ensures
            final(self).groups == old(self).groups,
            final(self).raw_members == old(self).raw_members,
            final(self).filter == old(self).filter,
            final(self).node_extra == old(self).node_extra,
            final(self).testing == old(self).testing,
            final(self).focus == old(self).focus,
            old(self).focus == ProxyFocus::Groups ==> if old(self).groups@.len() == 0 {
                final(self).group_list_state == old(self).group_list_state
                    && final(self).proxy_list_state == old(self).proxy_list_state
            } else {
                stepped(final(self).group_list_state, old(self).group_list_state, old(self).groups@.len() as int, viewport as int, -1)
                    && final(self).proxy_list_state == selected_as(
                    old(self).proxy_list_state,
                    default_member_row(old(self).groups@, final(self).group_list_state.selected.unwrap()),
                )
            },
            old(self).focus == ProxyFocus::Proxies ==> final(self).group_list_state == old(self).group_list_state
                && match group_at(old(self).groups@, old(self).group_list_state.selected) {
                Some(g) => if g.all is Some && members(g).len() > 0 {
                    stepped(final(self).proxy_list_state, old(self).proxy_list_state, members(g).len() as int, viewport as int, -1)
                } else {
                    final(self).proxy_list_state == old(self).proxy_list_state
                },
                None => final(self).proxy_list_state == old(self).proxy_list_state,
            },
    {
        self.step(viewport, -1);
    }

    fn step(&mut self, viewport: usize, dir: i32)
        requires
            dir == 1 || dir == -1,
            old(self).focus == ProxyFocus::Groups ==> move_in_range(
                old(self).group_list_state.selected,
                old(self).group_list_state.offset,
                old(self).groups@.len() as usize,
                viewport,
                dir,
            ),
            old(self).focus == ProxyFocus::Proxies ==> match group_at(old(self).groups@, old(self).group_list_state.selected) {
                Some(g) => move_in_range(
                    old(self).proxy_list_state.selected,
                    old(self).proxy_list_state.offset,
                    members(g).len() as usize,
                    viewport,
                    dir,
                ),
                None => true,
            },
        ensures
            final(self).groups == old(self).groups,
            final(self).raw_members == old(self).raw_members,
            final(self).filter == old(self).filter,
            final(self).node_extra == old(self).node_extra,
            final(self).testing == old(self).testing,
            final(self).focus == old(self).focus,
            old(self).focus == ProxyFocus::Groups ==> if old(self).groups@.len() == 0 {
                final(self).group_list_state == old(self).group_list_state
                    && final(self).proxy_list_state == old(self).proxy_list_state
            } else {
                stepped(final(self).group_list_state, old(self).group_list_state, old(self).groups@.len() as int, viewport as int, dir as int)
                    && final(self).proxy_list_state == selected_as(
                    old(self).proxy_list_state,
                    default_member_row(old(self).groups@, final(self).group_list_state.selected.unwrap()),
                )
            },
            old(self).focus == ProxyFocus::Proxies ==> final(self).group_list_state == old(self).group_list_state
                && match group_at(old(self).groups@, old(self).group_list_state.selected) {
                Some(g) => if g.all is Some && members(g).len() > 0 {
                    stepped(final(self).proxy_list_state, old(self).proxy_list_state, members(g).len() as int, viewport as int, dir as int)
                } else {
                    final(self).proxy_list_state == old(self).proxy_list_state
                },
                None => final(self).proxy_list_state == old(self).proxy_list_state,
            },
    {
        match self.focus {
            ProxyFocus::Groups => {
                let n = self.groups.len();
                if n > 0 {
                    move_list_cursor(&mut self.group_list_state, n, viewport, dir);
                    let i = match self.group_list_state.selected {
                        Some(i) => i,
                        None => 0,
                    };
                    self.select_default_proxy_for_group(i);
                }
            },
            ProxyFocus::Proxies => {
                if let Some(len) = self.member_count() {
                    move_list_cursor(&mut self.proxy_list_state, len, viewport, dir);
                }
            },
        }
    }

    /// Left arrow: the focus moves to the groups.
    pub fn on_left_key(&mut self)
        ensures
            final(self).focus == ProxyFocus::Groups,
            final(self).groups == old(self).groups,
            final(self).raw_members == old(self).raw_members,
            final(self).filter == old(self).filter,
            final(self).node_extra == old(self).node_extra,
            final(self).testing == old(self).testing,
            final(self).group_list_state == old(self).group_list_state,
            final(self).proxy_list_state == old(self).proxy_list_state,
    {
        self.focus = ProxyFocus::Groups;
    }

    /// Right arrow: the focus moves to the members, and the first member is
    /// selected if none is.
    pub fn on_right_key(&mut self)
        ensures
            final(self).focus == ProxyFocus::Proxies,
            final(self).groups == old(self).groups,
            final(self).raw_members == old(self).raw_members,
            final(self).filter == old(self).filter,
            final(self).node_extra == old(self).node_extra,
            final(self).testing == old(self).testing,
            final(self).group_list_state == old(self).group_list_state,
            final(self).proxy_list_state == (if old(self).proxy_list_state.selected is None {
                selected_as(old(self).proxy_list_state, Some(0))
            } else {
                old(self).proxy_list_state
            }),
    {
        self.focus = ProxyFocus::Proxies;
        if self.proxy_list_state.selected.is_none() {
            self.proxy_list_state.select(Some(0));
        }
    }
}

/// The cursor after a move by `step` in a list of `len` rows shown in
/// `viewport` rows: the wrapped index, scrolled into view.
pub open spec fn stepped(after: ListCursor, before: ListCursor, len: int, viewport: int, step: int) -> bool {
    let next = wrapped_index(start_index(before.selected), step, len);
    &&& after.selected == Some(next as usize)
    &&& after.offset == follow_offset(before.offset as int, viewport, next)
}

/// The member cursor after the shown members of the selected group became
/// `len` rows: cleared for none, the last row when past the end, the
/// first when unset, unchanged otherwise.
pub open spec fn fitted_member_cursor(c: ListCursor, len: int) -> ListCursor {
    if len == 0 {
        selected_as(c, None)
    } else {
        match c.selected {
            Some(p) => if p >= len { selected_as(c, Some((len - 1) as usize)) } else { c },
            None => selected_as(c, Some(0)),
        }
    }
}

/// A copy of a list of names.
pub fn copy_names(v: &Vec<String>) -> (r: Vec<String>)
    ensures
        r@ == v@,
{
    let mut r: Vec<String> = Vec::new();
    let mut i: usize = 0;
    while i < v.len()
        invariant
            i <= v@.len(),
            r@ == v@.take(i as int),
        decreases v@.len() - i,
    {
        r.push(v[i].clone());
        i = i + 1;
        assert(r@ =~= v@.take(i as int));
    }
    assert(v@.take(i as int) =~= v@);
    r
}

/// Whether `name` is among `names`.
pub fn contains_name(names: &Vec<String>, name: &str) -> (r: bool)
    ensures
        r == name_set(names@).contains(name@),
{
    let mut i: usize = 0;
    while i < names.len()
        invariant
            i <= names@.len(),
            forall|k: int| 0 <= k < i ==> names@[k]@ != name@,
        decreases names@.len() - i,
    {
        if str_eq(names[i].as_str(), name) {
            assert(names@[i as int]@ == name@);
            return true;
        }
        i = i + 1;
    }
    false
}

} // verus!

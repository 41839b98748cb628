//! Proxy groups as the pages list them: only groups with members, ordered
//! by name ignoring ASCII case, each with its members ordered the same
//! way; and the lookups that restore a selection by name.

use vstd::prelude::*;
use crate::sort::{
    ascii_lower, insert_by, lemma_insert_at, lemma_sort_elements, lemma_sort_sorted, lemma_sort_step,
    lemma_text_key_strict_weak, seq_lt, sort_by, str_less,
};
use crate::text::str_eq;
use crate::tui::models::Proxy;

verus! {

/// Group order: by name, ASCII case ignored.
pub open spec fn group_order() -> spec_fn(Proxy, Proxy) -> bool {
    |a: Proxy, b: Proxy| seq_lt(ascii_lower(a.name@), ascii_lower(b.name@))
}

/// Member order: by name, ASCII case ignored.
pub open spec fn name_order() -> spec_fn(String, String) -> bool {
    |a: String, b: String| seq_lt(ascii_lower(a@), ascii_lower(b@))
}

/// Sorting names keeps them all and puts them in ascending order with
/// ASCII case ignored: no name comes after one it precedes.
pub proof fn lemma_sorted_names(v: Seq<String>)
    ensures
        sort_by(v, name_order()).to_multiset() == v.to_multiset(),
        sort_by(v, name_order()).len() == v.len(),
        forall|i: int, j: int|
            #![trigger sort_by(v, name_order())[i], sort_by(v, name_order())[j]]
            0 <= i < j < v.len() ==> !seq_lt(ascii_lower(sort_by(v, name_order())[j]@), ascii_lower(sort_by(v, name_order())[i]@)),
{
    lemma_sort_elements(v, name_order());
    lemma_text_key_strict_weak(name_order(), |n: String| ascii_lower(n@), false);
    lemma_sort_sorted(v, name_order());
}

/// Sorting groups keeps them all and puts them in ascending order of
/// name with ASCII case ignored.
pub proof fn lemma_sorted_groups(v: Seq<Proxy>)
    ensures
        sort_by(v, group_order()).to_multiset() == v.to_multiset(),
        sort_by(v, group_order()).len() == v.len(),
        forall|i: int, j: int|
            #![trigger sort_by(v, group_order())[i], sort_by(v, group_order())[j]]
            0 <= i < j < v.len() ==> !seq_lt(ascii_lower(sort_by(v, group_order())[j].name@), ascii_lower(sort_by(v, group_order())[i].name@)),
{
    lemma_sort_elements(v, group_order());
    lemma_text_key_strict_weak(group_order(), |p: Proxy| ascii_lower(p.name@), false);
    lemma_sort_sorted(v, group_order());
}

/// The members of a group (none for a plain proxy).
pub open spec fn members(p: Proxy) -> Seq<String> {
    match p.all {
        Some(v) => v@,
        None => Seq::empty(),
    }
}

/// Whether a proxy is a group with at least one member.
pub open spec fn has_members(p: Proxy) -> bool {
    p.all is Some && members(p).len() > 0
}

/// The groups with members, in their original order.
pub open spec fn member_groups(ps: Seq<Proxy>) -> Seq<Proxy> {
    ps.filter(|p: Proxy| has_members(p))
}

/// `a` and `b` agree on everything but the member list.
pub open spec fn same_but_members(a: Proxy, b: Proxy) -> bool {
    &&& a.name == b.name
    &&& a.now == b.now
    &&& a.alive == b.alive
    &&& a.history == b.history
    &&& a.extra == b.extra
    &&& a.proxy_type == b.proxy_type
    &&& a.udp == b.udp
    &&& a.uot == b.uot
    &&& a.xudp == b.xudp
    &&& a.tfo == b.tfo
    &&& a.mptcp == b.mptcp
    &&& a.smux == b.smux
    &&& a.expected_status == b.expected_status
    &&& a.fixed == b.fixed
    &&& a.hidden == b.hidden
    &&& a.icon == b.icon
    &&& a.test_url == b.test_url
    &&& a.id == b.id
    &&& a.provider_name == b.provider_name
    &&& a.interface == b.interface
    &&& a.dialer_proxy == b.dialer_proxy
    &&& a.routing_mark == b.routing_mark
    &&& (a.all is Some <==> b.all is Some)
}

/// The position of the first string equal to `name`.
pub open spec fn index_of(s: Seq<String>, name: Seq<char>) -> Option<int> {
    if exists|i: int| 0 <= i < s.len() && s[i]@ == name {
        Some(choose|i: int| 0 <= i < s.len() && s[i]@ == name && forall|j: int| 0 <= j < i ==> s[j]@ != name)
    } else {
        None
    }
}

/// The position of the first group named `name`.
pub open spec fn group_index_of(gs: Seq<Proxy>, name: Seq<char>) -> Option<int> {
    if exists|i: int| 0 <= i < gs.len() && gs[i].name@ == name {
        Some(choose|i: int| 0 <= i < gs.len() && gs[i].name@ == name && forall|j: int| 0 <= j < i ==> gs[j].name@ != name)
    } else {
        None
    }
}

/// The position of the first string equal to `name`.
pub fn position_of(all: &Vec<String>, name: &str) -> (r: Option<usize>)
    ensures
        match r {
            None => index_of(all@, name@) is None,
            Some(i) => index_of(all@, name@) == Some(i as int) && i < all@.len(),
        },
{
    let n = all.len();
    let mut i: usize = 0;
    while i < n
        invariant
            n == all@.len(),
            i <= n,
            forall|j: int| 0 <= j < i ==> all@[j]@ != name@,
        decreases n - i,
    {
        if str_eq(all[i].as_str(), name) {
            proof {
                let s = all@;
                assert(s[i as int]@ == name@);
                let w = choose|w: int| 0 <= w < s.len() && s[w]@ == name@ && forall|j: int| 0 <= j < w ==> s[j]@ != name@;
                if w > i {
                    assert(s[i as int]@ != name@);
                }
                assert(index_of(s, name@) == Some(i as int));
            }
            return Some(i);
        }
        i = i + 1;
    }
    None
}

/// The position of the first group named `name`.
pub fn group_position(groups: &Vec<Proxy>, name: &str) -> (r: Option<usize>)
    ensures
        match r {
            None => group_index_of(groups@, name@) is None,
            Some(i) => group_index_of(groups@, name@) == Some(i as int) && i < groups@.len(),
        },
{
    let n = groups.len();
    let mut i: usize = 0;
    while i < n
        invariant
            n == groups@.len(),
            i <= n,
            forall|j: int| 0 <= j < i ==> groups@[j].name@ != name@,
        decreases n - i,
    {
        if str_eq(groups[i].name.as_str(), name) {
            proof {
                let s = groups@;
                assert(s[i as int].name@ == name@);
                let w = choose|w: int|
                    0 <= w < s.len() && s[w].name@ == name@ && forall|j: int| 0 <= j < w ==> s[j].name@ != name@;
                if w > i {
                    assert(s[i as int].name@ != name@);
                }
                assert(group_index_of(s, name@) == Some(i as int));
            }
            return Some(i);
        }
        i = i + 1;
    }
    None
}

/// The position of a group's current member `now` among `all`.
pub fn group_now_idx(now: Option<&str>, all: &Vec<String>) -> (r: Option<usize>)
    ensures
        match now {
            None => r is None,
            Some(n) => match r {
                None => index_of(all@, n@) is None,
                Some(i) => index_of(all@, n@) == Some(i as int) && i < all@.len(),
            },
        },
{
    match now {
        None => None,
        Some(n) => position_of(all, n),
    }
}

/// Strings sorted stably by name, ASCII case ignored.
pub fn sort_names(v: Vec<String>) -> (r: Vec<String>)
    ensures
        r@ == sort_by(v@, name_order()),
{
    let ghost orig = v@;
    let ghost lt = name_order();
    let mut rest = v;
    let mut out: Vec<String> = Vec::new();
    let mut k: usize = 0;
    let total: usize = rest.len();
    assert(orig.take(0) =~= Seq::<String>::empty());
    while rest.len() > 0
        invariant
            k + rest@.len() == total,
            orig.len() == total,
            rest@ == orig.skip(k as int),
            out@ == sort_by(orig.take(k as int), lt),
            lt == name_order(),
        decreases rest@.len(),
    {
        let x = rest.remove(0);
        assert(x == orig[k as int]);
        let mut j: usize = out.len();
        while j > 0 && str_less(x.as_str(), out[j - 1].as_str(), true)
            invariant
                j <= out@.len(),
                forall|i: int| j <= i < out@.len() ==> lt(x, #[trigger] out@[i]),
                lt == name_order(),
            decreases j,
        {
            j = j - 1;
        }
        proof {
            lemma_insert_at(out@, x, lt, j as int);
            lemma_sort_step(orig, k as int, lt);
            assert(out@.take(j as int).push(x) + out@.skip(j as int) =~= out@.insert(j as int, x));
            assert(rest@ =~= orig.skip(k + 1));
        }
        out.insert(j, x);
        k = k + 1;
    }
    assert(orig.take(k as int) =~= orig);
    out
}

/// Groups sorted stably by name, ASCII case ignored.
pub fn sort_groups(v: Vec<Proxy>) -> (r: Vec<Proxy>)
    ensures
        r@ == sort_by(v@, group_order()),
{
    let ghost orig = v@;
    let ghost lt = group_order();
    let mut rest = v;
    let mut out: Vec<Proxy> = Vec::new();
    let mut k: usize = 0;
    let total: usize = rest.len();
    assert(orig.take(0) =~= Seq::<Proxy>::empty());
    while rest.len() > 0
        invariant
            k + rest@.len() == total,
            orig.len() == total,
            rest@ == orig.skip(k as int),
            out@ == sort_by(orig.take(k as int), lt),
            lt == group_order(),
        decreases rest@.len(),
    {
        let x = rest.remove(0);
        assert(x == orig[k as int]);
        let mut j: usize = out.len();
        while j > 0 && str_less(x.name.as_str(), out[j - 1].name.as_str(), true)
            invariant
                j <= out@.len(),
                forall|i: int| j <= i < out@.len() ==> lt(x, #[trigger] out@[i]),
                lt == group_order(),
            decreases j,
        {
            j = j - 1;
        }
        proof {
            lemma_insert_at(out@, x, lt, j as int);
            lemma_sort_step(orig, k as int, lt);
            assert(out@.take(j as int).push(x) + out@.skip(j as int) =~= out@.insert(j as int, x));
            assert(rest@ =~= orig.skip(k + 1));
        }
        out.insert(j, x);
        k = k + 1;
    }
    assert(orig.take(k as int) =~= orig);
    out
}

/// The groups with members, in their original order.
pub fn keep_member_groups(v: Vec<Proxy>) -> (r: Vec<Proxy>)
    ensures
        r@ == member_groups(v@),
{
    let ghost orig = v@;
    let mut rest = v;
    let mut out: Vec<Proxy> = Vec::new();
    let mut k: usize = 0;
    let total: usize = rest.len();
    proof {
        reveal(Seq::filter);
        assert(orig.take(0) =~= Seq::<Proxy>::empty());
    }
    while rest.len() > 0
        invariant
            k + rest@.len() == total,
            orig.len() == total,
            rest@ == orig.skip(k as int),
            out@ == member_groups(orig.take(k as int)),
        decreases rest@.len(),
    {
        let x = rest.remove(0);
        proof {
            reveal(Seq::filter);
            assert(x == orig[k as int]);
            assert(orig.take(k + 1).drop_last() =~= orig.take(k as int));
            assert(orig.take(k + 1).last() == x);
            assert(rest@ =~= orig.skip(k + 1));
        }
        let keep = match &x.all {
            Some(a) => a.len() > 0,
            None => false,
        };
        if keep {
            out.push(x);
        }
        k = k + 1;
    }
    assert(orig.take(k as int) =~= orig);
    out
}

/// A group with its members sorted by name, ASCII case ignored.
pub fn sort_members(p: Proxy) -> (r: Proxy)
    ensures
        same_but_members(r, p),
        members(r) == sort_by(members(p), name_order()),
{
    let mut p = p;
    let all = p.all.take();
    match all {
        Some(v) => {
            p.all = Some(sort_names(v));
        },
        None => {
            assert(Seq::<String>::empty() =~= sort_by(Seq::<String>::empty(), name_order()));
        },
    }
    p
}

/// What the pages list for a set of proxies: the groups with members,
/// sorted by name, each with its members sorted (both ASCII case
/// ignored).
pub open spec fn listed_group(ps: Seq<Proxy>, i: int) -> Proxy {
    sort_by(member_groups(ps), group_order())[i]
}

proof fn lemma_listed_has_members(ps: Seq<Proxy>, i: int)
    requires
        0 <= i < sort_by(member_groups(ps), group_order()).len(),
    ensures
        has_members(listed_group(ps, i)),
{
    broadcast use vstd::seq_lib::group_to_multiset_ensures;
    let mg = member_groups(ps);
    let s = sort_by(mg, group_order());
    lemma_sort_elements(mg, group_order());
    let x = s[i];
    assert(s.contains(x));
    assert(s.to_multiset().count(x) > 0);
    assert(mg.contains(x));
    let j = choose|j: int| 0 <= j < mg.len() && mg[j] == x;
    ps.lemma_filter_pred(|p: Proxy| has_members(p), j);
}

/// The groups of `proxies` as the pages list them (see `listed_group`).
pub fn normalize_groups(proxies: Vec<Proxy>) -> (r: Vec<Proxy>)
    ensures
        r@.len() == sort_by(member_groups(proxies@), group_order()).len(),
        forall|i: int|
            0 <= i < r@.len() ==> {
                &&& same_but_members(#[trigger] r@[i], listed_group(proxies@, i))
                &&& members(r@[i]) == sort_by(members(listed_group(proxies@, i)), name_order())
                &&& has_members(r@[i])
            },
{
    let ghost ps = proxies@;
    let kept = keep_member_groups(proxies);
    let sorted = sort_groups(kept);
    let ghost e = sorted@;
    let mut rest = sorted;
    let mut out: Vec<Proxy> = Vec::new();
    let mut k: usize = 0;
    let total: usize = rest.len();
    while rest.len() > 0
        invariant
            k + rest@.len() == total,
            e.len() == total,
            e == sort_by(member_groups(ps), group_order()),
            rest@ == e.skip(k as int),
            out@.len() == k,
            forall|i: int|
                0 <= i < k ==> {
                    &&& same_but_members(#[trigger] out@[i], e[i])
                    &&& members(out@[i]) == sort_by(members(e[i]), name_order())
                    &&& has_members(out@[i])
                },
        decreases rest@.len(),
    {
        let g = rest.remove(0);
        assert(g == e[k as int]);
        proof {
            lemma_listed_has_members(ps, k as int);
            lemma_sort_elements(members(g), name_order());
        }
        let g = sort_members(g);
        out.push(g);
        k = k + 1;
        assert(rest@ =~= e.skip(k as int));
    }
    out
}

} // verus!

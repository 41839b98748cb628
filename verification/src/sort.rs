//! Stable sorting, stated as insertion sort: the lists of the pages are
//! ordered by a key with the original order kept among equal keys.

use vstd::prelude::*;

verus! {

broadcast use vstd::seq_lib::group_to_multiset_ensures;

/// `x` placed into `s` after every element it does not precede: one step
/// of a stable insertion sort.
pub open spec fn insert_by<T>(s: Seq<T>, x: T, lt: spec_fn(T, T) -> bool) -> Seq<T>
    decreases s.len(),
{
    if s.len() == 0 {
        seq![x]
    } else if lt(x, s.last()) {
        insert_by(s.drop_last(), x, lt).push(s.last())
    } else {
        s.push(x)
    }
}

/// `s` sorted stably by the strict order `lt`: the result of inserting
/// its elements one by one, in order.
pub open spec fn sort_by<T>(s: Seq<T>, lt: spec_fn(T, T) -> bool) -> Seq<T>
    decreases s.len(),
{
    if s.len() == 0 {
        Seq::empty()
    } else {
        insert_by(sort_by(s.drop_last(), lt), s.last(), lt)
    }
}

/// No element of `s` precedes an earlier one.
pub open spec fn sorted_by<T>(s: Seq<T>, lt: spec_fn(T, T) -> bool) -> bool {
    forall|i: int, j: int| 0 <= i < j < s.len() ==> !lt(s[j], s[i])
}

/// `lt` is a strict weak order: asymmetric, and "not before" is
/// transitive.
pub open spec fn strict_weak<T>(lt: spec_fn(T, T) -> bool) -> bool {
    &&& forall|a: T, b: T| #[trigger] lt(a, b) ==> !lt(b, a)
    &&& forall|a: T, b: T, c: T| #![trigger lt(a, b), lt(b, c)] !lt(a, b) && !lt(b, c) ==> !lt(a, c)
}

/// Where the insertion step puts `x`: after position `j - 1` when every
/// element from `j` on follows `x` and the one before does not.
pub proof fn lemma_insert_at<T>(s: Seq<T>, x: T, lt: spec_fn(T, T) -> bool, j: int)
    requires
        0 <= j <= s.len(),
        forall|i: int| j <= i < s.len() ==> lt(x, #[trigger] s[i]),
        j == 0 || !lt(x, s[j - 1]),
    ensures
        insert_by(s, x, lt) == s.take(j).push(x) + s.skip(j),
    decreases s.len() - j,
{
    if j == s.len() {
        if s.len() > 0 {
            assert(s.last() == s[j - 1]);
        }
        assert(s.take(j).push(x) + s.skip(j) =~= s.push(x));
    } else {
        let d = s.drop_last();
        assert(lt(x, s[s.len() - 1]));
        assert forall|i: int| j <= i < d.len() implies lt(x, #[trigger] d[i]) by {
            assert(d[i] == s[i]);
        }
        if j > 0 {
            assert(d[j - 1] == s[j - 1]);
        }
        lemma_insert_at(d, x, lt, j);
        assert(d.take(j).push(x) + d.skip(j) + seq![s.last()] =~= s.take(j).push(x) + s.skip(j));
        assert(insert_by(d, x, lt).push(s.last()) =~= insert_by(d, x, lt) + seq![s.last()]);
    }
}

/// Inserting keeps the elements: one more `x`.
pub proof fn lemma_insert_elements<T>(s: Seq<T>, x: T, lt: spec_fn(T, T) -> bool)
    ensures
        insert_by(s, x, lt).to_multiset() == s.to_multiset().insert(x),
        insert_by(s, x, lt).len() == s.len() + 1,
    decreases s.len(),
{
    if s.len() > 0 && lt(x, s.last()) {
        let d = s.drop_last();
        lemma_insert_elements(d, x, lt);
        assert(s =~= d.push(s.last()));
        assert(d.push(s.last()).to_multiset() == d.to_multiset().insert(s.last()));
        assert(insert_by(d, x, lt).push(s.last()).to_multiset()
            == insert_by(d, x, lt).to_multiset().insert(s.last()));
        assert(s.to_multiset().insert(x) =~= d.to_multiset().insert(x).insert(s.last()));
    } else if s.len() == 0 {
        assert(seq![x] =~= Seq::<T>::empty().push(x));
        assert(Seq::<T>::empty().to_multiset() =~= vstd::multiset::Multiset::empty());
    }
}

/// Sorting rearranges: the result holds the same elements, each as often.
pub proof fn lemma_sort_elements<T>(s: Seq<T>, lt: spec_fn(T, T) -> bool)
    ensures
        sort_by(s, lt).to_multiset() == s.to_multiset(),
        sort_by(s, lt).len() == s.len(),
    decreases s.len(),
{
    if s.len() > 0 {
        let d = s.drop_last();
        lemma_sort_elements(d, lt);
        lemma_insert_elements(sort_by(d, lt), s.last(), lt);
        assert(s =~= d.push(s.last()));
        assert(s.to_multiset() == d.to_multiset().insert(s.last()));
    } else {
        assert(Seq::<T>::empty().to_multiset() =~= vstd::multiset::Multiset::empty());
    }
}

proof fn lemma_insert_sorted<T>(s: Seq<T>, x: T, lt: spec_fn(T, T) -> bool)
    requires
        strict_weak(lt),
        sorted_by(s, lt),
    ensures
        sorted_by(insert_by(s, x, lt), lt),
        forall|k: int| 0 <= k < insert_by(s, x, lt).len() ==> {
            let e = #[trigger] insert_by(s, x, lt)[k];
            e == x || s.contains(e)
        },
    decreases s.len(),
{
    let r = insert_by(s, x, lt);
    if s.len() > 0 && lt(x, s.last()) {
        let d = s.drop_last();
        let l = s.last();
        assert(sorted_by(d, lt)) by {
            assert forall|i: int, j: int| 0 <= i < j < d.len() implies !lt(d[j], d[i]) by {
                assert(d[j] == s[j] && d[i] == s[i]);
            }
        }
        lemma_insert_sorted(d, x, lt);
        let m = insert_by(d, x, lt);
        assert forall|i: int, j: int| 0 <= i < j < r.len() implies !lt(r[j], r[i]) by {
            if j == r.len() - 1 {
                assert(r[j] == l);
                let e = m[i];
                assert(r[i] == e);
                if e == x {
                    assert(!lt(l, x));
                } else {
                    assert(d.contains(e));
                    let k = choose|k: int| 0 <= k < d.len() && d[k] == e;
                    assert(s[k] == e);
                    assert(s[s.len() - 1] == l);
                }
            } else {
                assert(r[j] == m[j] && r[i] == m[i]);
            }
        }
        assert forall|k: int| 0 <= k < r.len() implies {
            let e = #[trigger] r[k];
            e == x || s.contains(e)
        } by {
            if k == r.len() - 1 {
                assert(s[s.len() - 1] == r[k]);
            } else {
                let e = m[k];
                assert(r[k] == e);
                if e != x {
                    let i = choose|i: int| 0 <= i < d.len() && d[i] == e;
                    assert(s[i] == e);
                }
            }
        }
    } else if s.len() > 0 {
        assert forall|i: int, j: int| 0 <= i < j < r.len() implies !lt(r[j], r[i]) by {
            if j == r.len() - 1 {
                assert(r[j] == x);
                assert(!lt(x, s.last()));
                if i < s.len() - 1 {
                    assert(!lt(s[s.len() - 1], s[i]));
                    assert(r[i] == s[i]);
                }
            } else {
                assert(r[j] == s[j] && r[i] == s[i]);
            }
        }
        assert forall|k: int| 0 <= k < r.len() implies {
            let e = #[trigger] r[k];
            e == x || s.contains(e)
        } by {
            if k < s.len() {
                assert(r[k] == s[k]);
            }
        }
    }
}

/// An order by a text key in code-point order (or its reverse) is a strict
/// weak order.
pub proof fn lemma_text_key_strict_weak<T>(lt: spec_fn(T, T) -> bool, key: spec_fn(T) -> Seq<char>, rev: bool)
    requires
        forall|a: T, b: T| #[trigger] lt(a, b) == if rev { seq_lt(key(b), key(a)) } else { seq_lt(key(a), key(b)) },
    ensures
        strict_weak(lt),
{
    assert forall|a: T, b: T| #[trigger] lt(a, b) implies !lt(b, a) by {
        lemma_seq_lt_total(key(a), key(b));
    }
    assert forall|a: T, b: T, c: T| #![trigger lt(a, b), lt(b, c)] !lt(a, b) && !lt(b, c) implies !lt(a, c) by {
        lemma_seq_lt_total(key(a), key(b));
        lemma_seq_lt_total(key(b), key(c));
        lemma_seq_lt_total(key(a), key(c));
        if lt(a, c) {
            if rev {
                if key(a) != key(b) {
                    lemma_seq_lt_transitive(key(c), key(a), key(b));
                }
            } else {
                if key(a) != key(b) {
                    lemma_seq_lt_transitive(key(b), key(a), key(c));
                }
            }
        }
    }
}

/// An order by an integer key, smallest first, is a strict weak order.
pub proof fn lemma_int_key_strict_weak<T>(lt: spec_fn(T, T) -> bool, key: spec_fn(T) -> int)
    requires
        forall|a: T, b: T| #[trigger] lt(a, b) == (key(a) < key(b)),
    ensures
        strict_weak(lt),
{
}

/// An order that puts nothing before anything leaves the list as it is.
pub proof fn lemma_sort_by_nothing<T>(s: Seq<T>, lt: spec_fn(T, T) -> bool)
    requires
        forall|a: T, b: T| !#[trigger] lt(a, b),
    ensures
        sort_by(s, lt) == s,
    decreases s.len(),
{
    if s.len() > 0 {
        lemma_sort_by_nothing(s.drop_last(), lt);
        let d = sort_by(s.drop_last(), lt);
        if d.len() == 0 {
            assert(s =~= seq![s.last()]);
        } else {
            assert(!lt(s.last(), d.last()));
            assert(s =~= d.push(s.last()));
        }
    }
}

/// Under a strict weak order, sorting yields an ordered list.
pub proof fn lemma_sort_sorted<T>(s: Seq<T>, lt: spec_fn(T, T) -> bool)
    requires
        strict_weak(lt),
    ensures
        sorted_by(sort_by(s, lt), lt),
    decreases s.len(),
{
    if s.len() > 0 {
        lemma_sort_sorted(s.drop_last(), lt);
        lemma_insert_sorted(sort_by(s.drop_last(), lt), s.last(), lt);
    }
}

/// The last step of a stable sort: sorting a prefix one element longer
/// inserts that element.
pub proof fn lemma_sort_step<T>(s: Seq<T>, k: int, lt: spec_fn(T, T) -> bool)
    requires
        0 <= k < s.len(),
    ensures
        sort_by(s.take(k + 1), lt) == insert_by(sort_by(s.take(k), lt), s[k], lt),
{
    assert(s.take(k + 1).drop_last() =~= s.take(k));
}

/// Whether `a` comes before `b` in the order of `str::cmp`: the first
/// differing character decides by code point, and a proper prefix comes
/// first.
pub open spec fn seq_lt(a: Seq<char>, b: Seq<char>) -> bool
    decreases a.len(),
{
    if b.len() == 0 {
        false
    } else if a.len() == 0 {
        true
    } else if a[0] != b[0] {
        a[0] < b[0]
    } else {
        seq_lt(a.drop_first(), b.drop_first())
    }
}

/// `c` with an ASCII capital letter mapped to its small letter.
pub open spec fn ascii_lower_char(c: char) -> char {
    if 'A' <= c <= 'Z' { ((c as u32) + 32) as char } else { c }
}

/// `s` with ASCII capital letters mapped to small letters
/// (`str::to_ascii_lowercase`).
pub open spec fn ascii_lower(s: Seq<char>) -> Seq<char> {
    s.map_values(|c: char| ascii_lower_char(c))
}

/// `c` with an ASCII capital letter mapped to its small letter.
pub fn lower_char(c: char) -> (r: char)
    ensures
        r == ascii_lower_char(c),
{
    if 'A' <= c && c <= 'Z' {
        ((c as u8) + 32) as char
    } else {
        c
    }
}

/// Whether `a` comes before `b` in code-point order (`str::cmp`),
/// optionally after mapping ASCII capitals to small letters in both.
pub fn str_less(a: &str, b: &str, fold: bool) -> (r: bool)
    ensures
        r == if fold { seq_lt(ascii_lower(a@), ascii_lower(b@)) } else { seq_lt(a@, b@) },
{
    let n = a.unicode_len();
    let m = b.unicode_len();
    let ghost sa = if fold { ascii_lower(a@) } else { a@ };
    let ghost sb = if fold { ascii_lower(b@) } else { b@ };
    let mut i: usize = 0;
    assert(sa.skip(0) =~= sa);
    assert(sb.skip(0) =~= sb);
    while i < n && i < m
        invariant
            n == a@.len(),
            m == b@.len(),
            i <= n,
            i <= m,
            sa.len() == n,
            sb.len() == m,
            sa == (if fold { ascii_lower(a@) } else { a@ }),
            sb == (if fold { ascii_lower(b@) } else { b@ }),
            seq_lt(sa, sb) == seq_lt(sa.skip(i as int), sb.skip(i as int)),
        decreases n - i,
    {
        let ca0 = a.get_char(i);
        let cb0 = b.get_char(i);
        let ca = if fold { lower_char(ca0) } else { ca0 };
        let cb = if fold { lower_char(cb0) } else { cb0 };
        assert(ca == sa[i as int] && cb == sb[i as int]);
        let ghost ta = sa.skip(i as int);
        let ghost tb = sb.skip(i as int);
        assert(ta[0] == ca && tb[0] == cb);
        if ca != cb {
            return ca < cb;
        }
        assert(ta.drop_first() =~= sa.skip(i + 1));
        assert(tb.drop_first() =~= sb.skip(i + 1));
        i = i + 1;
    }
    i < m
}

/// Code-point order never puts a text before itself.
pub proof fn lemma_seq_lt_irreflexive(a: Seq<char>)
    ensures
        !seq_lt(a, a),
    decreases a.len(),
{
    if a.len() > 0 {
        lemma_seq_lt_irreflexive(a.drop_first());
    }
}

/// Code-point order is transitive.
pub proof fn lemma_seq_lt_transitive(a: Seq<char>, b: Seq<char>, c: Seq<char>)
    requires
        seq_lt(a, b),
        seq_lt(b, c),
    ensures
        seq_lt(a, c),
    decreases a.len(),
{
    if a.len() > 0 && b.len() > 0 && c.len() > 0 && a[0] == b[0] && b[0] == c[0] {
        lemma_seq_lt_transitive(a.drop_first(), b.drop_first(), c.drop_first());
    }
}

/// Code-point order is total: of two different texts one comes first,
/// and never both.
pub proof fn lemma_seq_lt_total(a: Seq<char>, b: Seq<char>)
    ensures
        a != b ==> seq_lt(a, b) || seq_lt(b, a),
        !(seq_lt(a, b) && seq_lt(b, a)),
    decreases a.len(),
{
    if a.len() > 0 && b.len() > 0 {
        if a[0] == b[0] {
            lemma_seq_lt_total(a.drop_first(), b.drop_first());
            if a != b {
                assert(a.drop_first() != b.drop_first()) by {
                    if a.drop_first() == b.drop_first() {
                        assert(a =~= seq![a[0]] + a.drop_first());
                        assert(b =~= seq![b[0]] + b.drop_first());
                    }
                }
            }
        }
    } else if a.len() == 0 && b.len() == 0 {
        assert(a =~= b);
    }
}

} // verus!

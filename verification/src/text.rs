//! Character-level string helpers shared by the parsers and formatters.

use vstd::prelude::*;

verus! {

/// Appends one character to an owned string (`String::push`).
#[verifier::external_body]
pub fn push_char(s: &mut String, c: char)
    ensures
        final(s)@ == old(s)@.push(c),
{
    s.push(c);
}

/// Character-wise equality of two string slices.
pub fn str_eq(a: &str, b: &str) -> (r: bool)
    ensures
        r == (a@ == b@),
{
    let n = a.unicode_len();
    let m = b.unicode_len();
    if n != m {
        return false;
    }
    let mut i: usize = 0;
    while i < n
        invariant
            n == a@.len(),
            m == b@.len(),
            n == m,
            i <= n,
            forall|j: int| 0 <= j < i ==> a@[j] == b@[j],
        decreases n - i,
    {
        if a.get_char(i) != b.get_char(i) {
            return false;
        }
        i = i + 1;
    }
    assert(a@ =~= b@);
    true
}

} // verus!

verus! {

/// The characters of a string slice, in order.
pub fn to_chars(s: &str) -> (v: Vec<char>)
    ensures
        v@ == s@,
{
    let n = s.unicode_len();
    let mut v: Vec<char> = Vec::new();
    let mut i: usize = 0;
    while i < n
        invariant
            n == s@.len(),
            i <= n,
            v@ == s@.take(i as int),
        decreases n - i,
    {
        let c = s.get_char(i);
        v.push(c);
        i = i + 1;
        assert(v@ =~= s@.take(i as int));
    }
    assert(s@.take(n as int) =~= s@);
    v
}

/// An owned string holding the characters `v[lo..hi]`.
pub fn string_of_range(v: &Vec<char>, lo: usize, hi: usize) -> (r: String)
    requires
        lo <= hi <= v@.len(),
    ensures
        r@ == v@.subrange(lo as int, hi as int),
{
    let mut r = String::new();
    let mut i: usize = lo;
    while i < hi
        invariant
            lo <= i <= hi,
            hi <= v@.len(),
            r@ == v@.subrange(lo as int, i as int),
        decreases hi - i,
    {
        push_char(&mut r, v[i]);
        i = i + 1;
        assert(r@ =~= v@.subrange(lo as int, i as int));
    }
    r
}

/// An owned string holding the characters of `v`.
pub fn string_of(v: &Vec<char>) -> (r: String)
    ensures
        r@ == v@,
{
    let r = string_of_range(v, 0, v.len());
    assert(v@.subrange(0, v@.len() as int) =~= v@);
    r
}

/// Number of bytes that the UTF-8 encoding of `c` takes.
pub open spec fn char_width(c: char) -> nat {
    if (c as u32) < 0x80 {
        1
    } else if (c as u32) < 0x800 {
        2
    } else if (c as u32) < 0x10000 {
        3
    } else {
        4
    }
}

/// Number of bytes that the UTF-8 encoding of `s` takes.
pub open spec fn utf8_len(s: Seq<char>) -> nat
    decreases s.len(),
{
    if s.len() == 0 {
        0
    } else {
        utf8_len(s.drop_last()) + char_width(s.last())
    }
}

/// Byte offset at which the character with index `k` of `s` starts.
pub open spec fn byte_offset(s: Seq<char>, k: int) -> nat {
    utf8_len(s.take(k))
}

/// Whether `b` is the byte offset of a character boundary of `s` (the
/// start, the end, or between two characters).
pub open spec fn is_boundary(s: Seq<char>, b: int) -> bool {
    exists|k: int| 0 <= k <= s.len() && byte_offset(s, k) == b
}

/// The UTF-8 width of a character.
pub fn len_utf8(c: char) -> (r: usize)
    ensures
        r == char_width(c),
{
    let u = c as u32;
    if u < 0x80 {
        1
    } else if u < 0x800 {
        2
    } else if u < 0x10000 {
        3
    } else {
        4
    }
}

/// Offsets grow with the character index by each character's width.
pub proof fn lemma_byte_offset_step(s: Seq<char>, k: int)
    requires
        0 <= k < s.len(),
    ensures
        byte_offset(s, k + 1) == byte_offset(s, k) + char_width(s[k]),
{
    assert(s.take(k + 1).drop_last() =~= s.take(k));
}

/// Offsets strictly grow with the character index.
pub proof fn lemma_byte_offset_strict(s: Seq<char>, j: int, k: int)
    requires
        0 <= j < k <= s.len(),
    ensures
        byte_offset(s, j) < byte_offset(s, k),
    decreases k - j,
{
    lemma_byte_offset_step(s, k - 1);
    if j < k - 1 {
        lemma_byte_offset_strict(s, j, k - 1);
    }
}

/// The offset of the end is the byte length.
pub proof fn lemma_byte_offset_end(s: Seq<char>)
    ensures
        byte_offset(s, s.len() as int) == utf8_len(s),
{
    assert(s.take(s.len() as int) =~= s);
}

/// Byte lengths add up over concatenation.
pub proof fn lemma_utf8_len_concat(a: Seq<char>, b: Seq<char>)
    ensures
        utf8_len(a + b) == utf8_len(a) + utf8_len(b),
    decreases b.len(),
{
    if b.len() == 0 {
        assert(a + b =~= a);
    } else {
        assert((a + b).drop_last() =~= a + b.drop_last());
        lemma_utf8_len_concat(a, b.drop_last());
    }
}

/// The byte offset at which the character with index `k` of `v` starts.
pub fn byte_offset_at(v: &Vec<char>, k: usize) -> (r: usize)
    requires
        k <= v@.len(),
        utf8_len(v@) <= usize::MAX,
    ensures
        r == byte_offset(v@, k as int),
{
    let mut i: usize = 0;
    let mut acc: usize = 0;
    assert(v@.take(0) =~= Seq::<char>::empty());
    while i < k
        invariant
            k <= v@.len(),
            utf8_len(v@) <= usize::MAX,
            i <= k,
            acc == byte_offset(v@, i as int),
        decreases k - i,
    {
        proof {
            lemma_byte_offset_step(v@, i as int);
            lemma_byte_offset_bound(v@, i + 1);
        }
        acc = acc + len_utf8(v[i]);
        i = i + 1;
    }
    acc
}

/// The character index whose offset is `b`, if `b` is a boundary.
pub fn boundary_index(v: &Vec<char>, b: usize) -> (r: Option<usize>)
    ensures
        match r {
            Some(k) => k <= v@.len() && byte_offset(v@, k as int) == b,
            None => !is_boundary(v@, b as int),
        },
{
    let n = v.len();
    let mut i: usize = 0;
    let mut acc: usize = 0;
    assert(v@.take(0) =~= Seq::<char>::empty());
    while i < n && acc < b
        invariant
            n == v@.len(),
            i <= n,
            acc == byte_offset(v@, i as int),
            acc <= b,
            forall|j: int| 0 <= j < i ==> byte_offset(v@, j) < b,
        decreases n - i,
    {
        proof {
            lemma_byte_offset_step(v@, i as int);
        }
        let w = len_utf8(v[i]);
        if b - acc < w {
            proof {
                assert forall|k: int| 0 <= k <= v@.len() implies byte_offset(v@, k) != b by {
                    if k <= i {
                        if k < i {
                        }
                    } else {
                        if k > i + 1 {
                            lemma_byte_offset_strict(v@, i + 1, k);
                        }
                    }
                }
            }
            return None;
        }
        acc = acc + w;
        i = i + 1;
    }
    if acc == b {
        Some(i)
    } else {
        proof {
            assert(i == n);
            assert forall|k: int| 0 <= k <= v@.len() implies byte_offset(v@, k) != b by {
                if k < i {
                }
            }
        }
        None
    }
}

} // verus!

verus! {

/// The character index of the boundary at byte offset `b` (meaningful
/// when `is_boundary(s, b)`).
pub open spec fn char_index_of(s: Seq<char>, b: int) -> int {
    choose|k: int| 0 <= k <= s.len() && byte_offset(s, k) == b
}

/// A boundary has exactly one character index.
pub proof fn lemma_char_index_of(s: Seq<char>, b: int, k: int)
    requires
        0 <= k <= s.len(),
        byte_offset(s, k) == b,
    ensures
        char_index_of(s, b) == k,
        is_boundary(s, b),
{
    let j = char_index_of(s, b);
    assert(0 <= j <= s.len() && byte_offset(s, j) == b);
    if j < k {
        lemma_byte_offset_strict(s, j, k);
    } else if k < j {
        lemma_byte_offset_strict(s, k, j);
    }
}

/// Offsets never exceed the byte length.
pub proof fn lemma_byte_offset_bound(s: Seq<char>, k: int)
    requires
        0 <= k <= s.len(),
    ensures
        byte_offset(s, k) <= utf8_len(s),
{
    lemma_byte_offset_end(s);
    if k < s.len() {
        lemma_byte_offset_strict(s, k, s.len() as int);
    }
}

/// An owned string holding `v` with `c` inserted before index `k`.
pub fn string_with_insert(v: &Vec<char>, k: usize, c: char) -> (r: String)
    requires
        k <= v@.len(),
    ensures
        r@ == v@.insert(k as int, c),
{
    let mut r = string_of_range(v, 0, k);
    push_char(&mut r, c);
    let n = v.len();
    let mut i: usize = k;
    while i < n
        invariant
            k <= i <= n,
            n == v@.len(),
            r@ == v@.take(k as int).push(c) + v@.subrange(k as int, i as int),
        decreases n - i,
    {
        push_char(&mut r, v[i]);
        i = i + 1;
        assert(r@ =~= v@.take(k as int).push(c) + v@.subrange(k as int, i as int));
    }
    assert(r@ =~= v@.insert(k as int, c));
    r
}

/// An owned string holding `v` without the character at index `k`.
pub fn string_with_remove(v: &Vec<char>, k: usize) -> (r: String)
    requires
        k < v@.len(),
    ensures
        r@ == v@.remove(k as int),
{
    let mut r = string_of_range(v, 0, k);
    let n = v.len();
    let mut i: usize = k + 1;
    while i < n
        invariant
            k < i <= n,
            n == v@.len(),
            r@ == v@.take(k as int) + v@.subrange(k + 1, i as int),
        decreases n - i,
    {
        push_char(&mut r, v[i]);
        i = i + 1;
        assert(r@ =~= v@.take(k as int) + v@.subrange(k + 1, i as int));
    }
    assert(r@ =~= v@.remove(k as int));
    r
}

/// The text `str::to_lowercase` gives for `s` (full Unicode lowercase
/// mapping).
pub uninterp spec fn lowercase(s: Seq<char>) -> Seq<char>;

/// The ASCII lowercase of a character: `A`-`Z` become `a`-`z`, every
/// other character stays.
pub open spec fn ascii_lower(c: char) -> char {
    if 'A' <= c && c <= 'Z' {
        ((c as u32) + 32) as char
    } else {
        c
    }
}

/// Whether every character of `s` is ASCII.
pub open spec fn all_ascii(s: Seq<char>) -> bool {
    forall|i: int| 0 <= i < s.len() ==> (#[trigger] s[i] as u32) < 0x80
}

/// The ASCII lowercase of a text, character by character.
pub open spec fn ascii_lowercase(s: Seq<char>) -> Seq<char> {
    s.map_values(|c: char| ascii_lower(c))
}

/// The lowercase of `s` is its ASCII lowercase (so for ASCII text, as
/// `to_lowercase` ensures).
pub open spec fn lowers_as_ascii(s: Seq<char>) -> bool {
    lowercase(s) == ascii_lowercase(s)
}

/// Lowering both sides keeps an occurrence: a text that occurs in another
/// still occurs in it once both are in lowercase.
pub proof fn lemma_contains_lowercased(hay: Seq<char>, needle: Seq<char>)
    requires
        contains_seq(hay, needle),
    ensures
        contains_seq(ascii_lowercase(hay), ascii_lowercase(needle)),
{
    let i = choose|i: int| 0 <= i <= hay.len() - needle.len() && #[trigger] hay.subrange(i, i + needle.len()) == needle;
    let lh = ascii_lowercase(hay);
    let ln = ascii_lowercase(needle);
    assert forall|j: int| 0 <= j < ln.len() implies #[trigger] lh.subrange(i, i + ln.len())[j] == ln[j] by {
        assert(hay.subrange(i, i + needle.len())[j] == needle[j]);
        assert(hay[i + j] == needle[j]);
    }
    assert(lh.subrange(i, i + ln.len()) =~= ln);
}

/// ASCII lowercase leaves lowercase text as it is.
pub proof fn lemma_ascii_lowercase_idempotent(s: Seq<char>)
    ensures
        ascii_lowercase(ascii_lowercase(s)) == ascii_lowercase(s),
{
    assert forall|j: int| 0 <= j < s.len() implies #[trigger] ascii_lowercase(ascii_lowercase(s))[j] == ascii_lowercase(s)[j] by {
        let c = s[j];
        if 'A' <= c && c <= 'Z' {
            assert(((c as u32) + 32) as char == ascii_lower(c));
        }
    }
    assert(ascii_lowercase(ascii_lowercase(s)) =~= ascii_lowercase(s));
}

/// `str::to_lowercase`: the Unicode lowercase of `s`, which depends on
/// `s` alone; the empty text stays empty, and ASCII text gets its ASCII
/// lowercase (Unicode maps `A`-`Z` to `a`-`z` and leaves the other ASCII
/// characters as they are).
#[verifier::external_body]
pub fn to_lowercase(s: &str) -> (r: String)
    ensures
        r@ == lowercase(s@),
        s@.len() == 0 ==> r@.len() == 0,
        all_ascii(s@) ==> r@ == s@.map_values(|c: char| ascii_lower(c)),
{
    s.to_lowercase()
}

/// Whether `needle` occurs in `hay` as a contiguous run (the empty needle
/// occurs in every text).
pub open spec fn contains_seq(hay: Seq<char>, needle: Seq<char>) -> bool {
    exists|i: int| 0 <= i <= hay.len() - needle.len() && #[trigger] hay.subrange(i, i + needle.len()) == needle
}

/// `needle` occurs in `hay` starting at character index `i`.
pub open spec fn occurs_at(hay: Seq<char>, needle: Seq<char>, i: int) -> bool {
    0 <= i && i + needle.len() <= hay.len() && hay.subrange(i, i + needle.len()) == needle
}

/// `i` is the character index of the first occurrence of `needle` in `hay`.
pub open spec fn first_occurrence(hay: Seq<char>, needle: Seq<char>, i: int) -> bool {
    &&& occurs_at(hay, needle, i)
    &&& forall|j: int| 0 <= j < i ==> !occurs_at(hay, needle, j)
}

/// The character index of the first occurrence of `needle` in `hay`
/// (`str::find` with a string pattern, counted in characters).
pub fn find_str(hay: &str, needle: &str) -> (r: Option<usize>)
    ensures
        match r {
            Some(i) => first_occurrence(hay@, needle@, i as int),
            None => !contains_seq(hay@, needle@),
        },
{
    let n = hay.unicode_len();
    let m = needle.unicode_len();
    if m > n {
        return None;
    }
    let mut i: usize = 0;
    while i <= n - m
        invariant
            n == hay@.len(),
            m == needle@.len(),
            m <= n,
            i <= n - m + 1,
            forall|k: int| 0 <= k < i ==> #[trigger] hay@.subrange(k, k + m) != needle@,
        decreases n - m + 1 - i,
    {
        let mut j: usize = 0;
        while j < m && hay.get_char(i + j) == needle.get_char(j)
            invariant
                n == hay@.len(),
                m == needle@.len(),
                i + m <= n,
                j <= m,
                forall|k: int| 0 <= k < j ==> hay@[i + k] == needle@[k],
            decreases m - j,
        {
            j = j + 1;
        }
        if j == m {
            assert(hay@.subrange(i as int, i + m) =~= needle@);
            proof {
                assert forall|k: int| 0 <= k < i implies !occurs_at(hay@, needle@, k) by {
                    assert(hay@.subrange(k, k + m) != needle@);
                }
            }
            return Some(i);
        }
        assert(hay@.subrange(i as int, i + m)[j as int] != needle@[j as int]);
        i = i + 1;
    }
    proof {
        assert forall|k: int| 0 <= k <= hay@.len() - needle@.len() implies #[trigger] hay@.subrange(k, k + needle@.len()) != needle@ by {
            assert(k < i);
        }
    }
    None
}

/// Whether `needle` occurs in `hay` (`str::contains` with a string
/// pattern).
pub fn str_contains(hay: &str, needle: &str) -> (r: bool)
    ensures
        r == contains_seq(hay@, needle@),
{
    match find_str(hay, needle) {
        Some(i) => {
            assert(hay@.subrange(i as int, i + needle@.len()) == needle@);
            true
        },
        None => false,
    }
}

/// `str::len`: the number of bytes of the UTF-8 encoding of `s`.
#[verifier::external_body]
pub fn utf8_byte_len(s: &str) -> (r: usize)
    ensures
        r == utf8_len(s@),
{
    s.len()
}

} // verus!

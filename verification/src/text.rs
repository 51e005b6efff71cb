//! Character-sequence helpers used by the GSS reader and the engine.
//!
//! Strings are handled as sequences of `char`, which is how Verus views a
//! `String` or a `&str`.

use vstd::prelude::*;

verus! {

/// The Unicode `White_Space` property, the whitespace that `str::trim` removes.
pub open spec fn is_white_space(c: char) -> bool {
    ||| ('\u{9}' <= c && c <= '\u{d}')
    ||| c == ' '
    ||| c == '\u{85}'
    ||| c == '\u{a0}'
    ||| c == '\u{1680}'
    ||| ('\u{2000}' <= c && c <= '\u{200a}')
    ||| c == '\u{2028}'
    ||| c == '\u{2029}'
    ||| c == '\u{202f}'
    ||| c == '\u{205f}'
    ||| c == '\u{3000}'
}

/// `s` without its leading characters that satisfy `p`.
pub open spec fn trim_start_by(s: Seq<char>, p: spec_fn(char) -> bool) -> Seq<char>
    decreases s.len(),
{
    if s.len() > 0 && p(s[0]) {
        trim_start_by(s.drop_first(), p)
    } else {
        s
    }
}

/// `s` without its trailing characters that satisfy `p`.
pub open spec fn trim_end_by(s: Seq<char>, p: spec_fn(char) -> bool) -> Seq<char>
    decreases s.len(),
{
    if s.len() > 0 && p(s.last()) {
        trim_end_by(s.drop_last(), p)
    } else {
        s
    }
}

/// `s` without its leading and trailing characters that satisfy `p`.
pub open spec fn trim_by(s: Seq<char>, p: spec_fn(char) -> bool) -> Seq<char> {
    trim_end_by(trim_start_by(s, p), p)
}

/// What `str::trim` returns: `s` without leading and trailing whitespace.
pub open spec fn trim(s: Seq<char>) -> Seq<char> {
    trim_by(s, |c: char| is_white_space(c))
}

/// The predicate "is the character `c`".
pub open spec fn is_char(c: char) -> spec_fn(char) -> bool {
    |x: char| x == c
}

/// What `str::trim_matches(c)` returns for a single character `c`.
pub open spec fn trim_char(s: Seq<char>, c: char) -> Seq<char> {
    trim_by(s, is_char(c))
}

/// What `str::strip_prefix` returns.
pub open spec fn strip_prefix(s: Seq<char>, prefix: Seq<char>) -> Option<Seq<char>> {
    if prefix.is_prefix_of(s) {
        Some(s.skip(prefix.len() as int))
    } else {
        None
    }
}

/// The index of the first occurrence of `c` in `s`, if any.
pub open spec fn first_index_of(s: Seq<char>, c: char) -> Option<int>
    decreases s.len(),
{
    if s.len() == 0 {
        None
    } else if s[0] == c {
        Some(0)
    } else {
        match first_index_of(s.drop_first(), c) {
            Some(i) => Some(i + 1),
            None => None,
        }
    }
}

/// What `str::splitn(2, c)` yields: the text before the first `c`, and the
/// text after it if there is one.
pub open spec fn split_once(s: Seq<char>, c: char) -> (Seq<char>, Option<Seq<char>>) {
    match first_index_of(s, c) {
        Some(i) => (s.take(i), Some(s.skip(i + 1))),
        None => (s, None),
    }
}

/// `s` with every `from` replaced by `to`.
pub open spec fn replace_char(s: Seq<char>, from: char, to: char) -> Seq<char> {
    s.map_values(|x: char| if x == from { to } else { x })
}

/// What `char::to_ascii_uppercase` returns.
pub open spec fn ascii_upper(c: char) -> char {
    if 'a' <= c && c <= 'z' {
        ((c as u32) - 32) as char
    } else {
        c
    }
}

/// What `char::to_ascii_lowercase` returns.
pub open spec fn ascii_lower(c: char) -> char {
    if 'A' <= c && c <= 'Z' {
        ((c as u32) + 32) as char
    } else {
        c
    }
}

/// Equality of two strings ignoring ASCII case, as `str::eq_ignore_ascii_case`.
pub open spec fn eq_ignore_ascii_case(a: Seq<char>, b: Seq<char>) -> bool {
    &&& a.len() == b.len()
    &&& forall|i: int| 0 <= i < a.len() ==> ascii_lower(#[trigger] a[i]) == ascii_lower(b[i])
}

/// Every character of `s` is ASCII.
pub open spec fn is_ascii(s: Seq<char>) -> bool {
    forall|i: int| 0 <= i < s.len() ==> (#[trigger] s[i] as u32) < 128
}

/// `s` with its ASCII letters in lower case, as `str::to_ascii_lowercase`.
pub open spec fn ascii_lowercase(s: Seq<char>) -> Seq<char> {
    s.map_values(|c: char| ascii_lower(c))
}

/// `s` with its ASCII letters in upper case, as `str::to_ascii_uppercase`.
pub open spec fn ascii_uppercase(s: Seq<char>) -> Seq<char> {
    s.map_values(|c: char| ascii_upper(c))
}

/// The text that `str::to_lowercase` returns for `s`.
pub uninterp spec fn lowercase(s: Seq<char>) -> Seq<char>;

/// Calls `str::to_lowercase`: the Unicode lowercase mapping of `s`.
///
/// The contract names the result; of the mapping (std's Unicode table) it
/// states only that on ASCII text it lowers the letters `A` to `Z` and keeps
/// every other character, as the Unicode case mapping does for ASCII.
#[verifier::external_body]
pub(crate) fn to_lowercase(s: &str) -> (r: String)
    ensures
        r@ == lowercase(s@),
        is_ascii(s@) ==> r@ == ascii_lowercase(s@),
{
    s.to_lowercase()
}

/// The text that `str::to_uppercase` returns for `s`.
pub uninterp spec fn uppercase(s: Seq<char>) -> Seq<char>;

/// Calls `str::to_uppercase`: the Unicode uppercase mapping of `s`.
///
/// The contract names the result; of the mapping (std's Unicode table) it
/// states only that on ASCII text it raises the letters `a` to `z` and keeps
/// every other character, as the Unicode case mapping does for ASCII.
#[verifier::external_body]
pub(crate) fn to_uppercase(s: &str) -> (r: String)
    ensures
        r@ == uppercase(s@),
        is_ascii(s@) ==> r@ == ascii_uppercase(s@),
{
    s.to_uppercase()
}

/// Calls `String::push`, which appends one character.
#[verifier::external_body]
pub(crate) fn push_char(s: &mut String, c: char)
    ensures
        final(s)@ == old(s)@.push(c),
{
    s.push(c);
}

/// Whether two strings hold the same characters.
pub fn str_eq(a: &str, b: &str) -> (r: bool)
    ensures
        r == (a@ == b@),
{
    let va = chars_of(a);
    let vb = chars_of(b);
    if va.len() != vb.len() {
        return false;
    }
    let mut i: usize = 0;
    while i < va.len()
        invariant
            va@ == a@,
            vb@ == b@,
            va@.len() == vb@.len(),
            i <= va@.len(),
            forall|j: int| 0 <= j < i ==> va@[j] == vb@[j],
        decreases va.len() - i,
    {
        if va[i] != vb[i] {
            return false;
        }
        i += 1;
    }
    assert(va@ =~= vb@);
    true
}

/// Copies the characters of `s` into a vector.
pub fn chars_of(s: &str) -> (v: Vec<char>)
    ensures
        v@ == s@,
{
    let mut v: Vec<char> = Vec::new();
    for c in it: s.chars()
        invariant
            v@ == it.seq().take(it.index() as int),
    {
        v.push(c);
    }
    v
}

/// Builds a `String` from the characters `v[lo..hi]`.
pub fn string_of_range(v: &Vec<char>, lo: usize, hi: usize) -> (s: String)
    requires
        lo <= hi <= v.len(),
    ensures
        s@ == v@.subrange(lo as int, hi as int),
{
    let mut s = String::new();
    let mut i = lo;
    while i < hi
        invariant
            lo <= i <= hi <= v.len(),
            s@ == v@.subrange(lo as int, i as int),
        decreases hi - i,
    {
        push_char(&mut s, v[i]);
        i += 1;
        assert(s@ =~= v@.subrange(lo as int, i as int));
    }
    s
}

/// Whether `c` has the `White_Space` property.
pub fn is_ws(c: char) -> (r: bool)
    ensures
        r == is_white_space(c),
{
    ('\u{9}' <= c && c <= '\u{d}') || c == ' ' || c == '\u{85}' || c == '\u{a0}' || c
        == '\u{1680}' || ('\u{2000}' <= c && c <= '\u{200a}') || c == '\u{2028}' || c
        == '\u{2029}' || c == '\u{202f}' || c == '\u{205f}' || c == '\u{3000}'
}

proof fn lemma_trim_start_step(s: Seq<char>, p: spec_fn(char) -> bool, lo: int)
    requires
        0 <= lo < s.len(),
        p(s[lo]),
    ensures
        trim_start_by(s.subrange(lo, s.len() as int), p) == trim_start_by(
            s.subrange(lo + 1, s.len() as int),
            p,
        ),
{
    assert(s.subrange(lo, s.len() as int).drop_first() =~= s.subrange(lo + 1, s.len() as int));
}

proof fn lemma_trim_end_step(s: Seq<char>, p: spec_fn(char) -> bool, hi: int)
    requires
        0 < hi <= s.len(),
        p(s[hi - 1]),
    ensures
        trim_end_by(s.subrange(0, hi), p) == trim_end_by(s.subrange(0, hi - 1), p),
{
    assert(s.subrange(0, hi).drop_last() =~= s.subrange(0, hi - 1));
}

/// The bounds `lo..hi` of `v[from..to]` with whitespace trimmed at both ends.
pub fn trim_bounds(v: &Vec<char>, from: usize, to: usize) -> (r: (usize, usize))
    requires
        from <= to <= v.len(),
    ensures
        from <= r.0 <= r.1 <= to,
        v@.subrange(r.0 as int, r.1 as int) == trim(v@.subrange(from as int, to as int)),
{
    let ghost p = |c: char| is_white_space(c);
    let ghost s = v@.subrange(from as int, to as int);
    let mut lo = from;
    while lo < to && is_ws(v[lo])
        invariant
            from <= lo <= to <= v.len(),
            s == v@.subrange(from as int, to as int),
            p == (|c: char| is_white_space(c)),
            trim_start_by(s, p) == trim_start_by(v@.subrange(lo as int, to as int), p),
        decreases to - lo,
    {
        proof {
            let t = v@.subrange(from as int, to as int);
            assert(v@.subrange(lo as int, to as int) =~= t.subrange(lo - from, t.len() as int));
            assert(v@.subrange(lo + 1, to as int) =~= t.subrange(lo - from + 1, t.len() as int));
            assert(t[lo - from] == v@[lo as int]);
            lemma_trim_start_step(t, p, lo - from);
        }
        lo += 1;
    }
    let ghost u = v@.subrange(lo as int, to as int);
    assert(trim_start_by(u, p) == u);
    let mut hi = to;
    while hi > lo && is_ws(v[hi - 1])
        invariant
            from <= lo <= hi <= to <= v.len(),
            u == v@.subrange(lo as int, to as int),
            p == (|c: char| is_white_space(c)),
            trim_end_by(u, p) == trim_end_by(v@.subrange(lo as int, hi as int), p),
        decreases hi - lo,
    {
        proof {
            let t = v@.subrange(lo as int, hi as int);
            assert(t.subrange(0, t.len() as int) =~= t);
            assert(v@.subrange(lo as int, hi - 1) =~= t.subrange(0, t.len() - 1));
            assert(t[t.len() - 1] == v@[hi - 1]);
            lemma_trim_end_step(t, p, t.len() as int);
        }
        hi -= 1;
    }
    assert(trim_end_by(v@.subrange(lo as int, hi as int), p) == v@.subrange(lo as int, hi as int));
    (lo, hi)
}

/// The bounds `lo..hi` of `v[from..to]` with the character `c` trimmed at
/// both ends.
pub fn trim_char_bounds(v: &Vec<char>, from: usize, to: usize, c: char) -> (r: (usize, usize))
    requires
        from <= to <= v.len(),
    ensures
        from <= r.0 <= r.1 <= to,
        v@.subrange(r.0 as int, r.1 as int) == trim_char(v@.subrange(from as int, to as int), c),
{
    let ghost p = is_char(c);
    let ghost s = v@.subrange(from as int, to as int);
    let mut lo = from;
    while lo < to && v[lo] == c
        invariant
            from <= lo <= to <= v.len(),
            s == v@.subrange(from as int, to as int),
            p == is_char(c),
            trim_start_by(s, p) == trim_start_by(v@.subrange(lo as int, to as int), p),
        decreases to - lo,
    {
        proof {
            let t = v@.subrange(from as int, to as int);
            assert(v@.subrange(lo as int, to as int) =~= t.subrange(lo - from, t.len() as int));
            assert(v@.subrange(lo + 1, to as int) =~= t.subrange(lo - from + 1, t.len() as int));
            assert(t[lo - from] == v@[lo as int]);
            lemma_trim_start_step(t, p, lo - from);
        }
        lo += 1;
    }
    let ghost u = v@.subrange(lo as int, to as int);
    assert(trim_start_by(u, p) == u);
    let mut hi = to;
    while hi > lo && v[hi - 1] == c
        invariant
            from <= lo <= hi <= to <= v.len(),
            u == v@.subrange(lo as int, to as int),
            p == is_char(c),
            trim_end_by(u, p) == trim_end_by(v@.subrange(lo as int, hi as int), p),
        decreases hi - lo,
    {
        proof {
            let t = v@.subrange(lo as int, hi as int);
            assert(t.subrange(0, t.len() as int) =~= t);
            assert(v@.subrange(lo as int, hi - 1) =~= t.subrange(0, t.len() - 1));
            assert(t[t.len() - 1] == v@[hi - 1]);
            lemma_trim_end_step(t, p, t.len() as int);
        }
        hi -= 1;
    }
    assert(trim_end_by(v@.subrange(lo as int, hi as int), p) == v@.subrange(lo as int, hi as int));
    (lo, hi)
}

proof fn lemma_first_index_step(s: Seq<char>, c: char, k: int)
    requires
        0 <= k < s.len(),
        s[k] != c,
    ensures
        first_index_of(s.skip(k), c) == match first_index_of(s.skip(k + 1), c) {
            Some(i) => Some(i + 1),
            None => None,
        },
{
    assert(s.skip(k).drop_first() =~= s.skip(k + 1));
}

/// The first index of `c` is an index of `c`, with none before it.
pub proof fn lemma_first_index_of(s: Seq<char>, c: char)
    ensures
        match first_index_of(s, c) {
            Some(i) => 0 <= i < s.len() && s[i] == c && forall|j: int| 0 <= j < i ==> s[j] != c,
            None => forall|j: int| 0 <= j < s.len() ==> s[j] != c,
        },
    decreases s.len(),
{
    if s.len() > 0 {
        lemma_first_index_of(s.drop_first(), c);
        if s[0] != c {
            assert forall|j: int| 1 <= j < s.len() implies s[j] == s.drop_first()[j - 1] by {}
        }
    }
}

/// The index, within `v`, of the first `c` in `v[from..to]`.
pub fn find_char(v: &Vec<char>, from: usize, to: usize, c: char) -> (r: Option<usize>)
    requires
        from <= to <= v.len(),
    ensures
        match first_index_of(v@.subrange(from as int, to as int), c) {
            Some(i) => r matches Some(k) && k == from + i,
            None => r is None,
        },
        r matches Some(k) ==> from <= k < to && v@[k as int] == c,
{
    proof {
        lemma_first_index_of(v@.subrange(from as int, to as int), c);
    }
    let ghost s = v@.subrange(from as int, to as int);
    let mut k = from;
    assert(s.skip(0) =~= s);
    while k < to
        invariant
            from <= k <= to <= v.len(),
            s == v@.subrange(from as int, to as int),
            first_index_of(s, c) == match first_index_of(s.skip(k - from), c) {
                Some(i) => Some(i + (k - from)),
                None => None,
            },
        decreases to - k,
    {
        assert(s.skip(k - from)[0] == v@[k as int]);
        if v[k] == c {
            return Some(k);
        }
        proof {
            lemma_first_index_step(s, c, k - from);
        }
        k += 1;
    }
    assert(s.skip(k - from) =~= Seq::<char>::empty());
    None
}

/// Whether `v[from..to]` begins with `prefix`.
pub fn has_prefix(v: &Vec<char>, from: usize, to: usize, prefix: &str) -> (r: bool)
    requires
        from <= to <= v.len(),
    ensures
        r == prefix@.is_prefix_of(v@.subrange(from as int, to as int)),
{
    let p = chars_of(prefix);
    if p.len() > to - from {
        return false;
    }
    let mut i: usize = 0;
    while i < p.len()
        invariant
            from <= to <= v.len(),
            p@ == prefix@,
            p.len() <= to - from,
            i <= p.len(),
            forall|j: int| 0 <= j < i ==> #[trigger] p@[j] == v@[from + j],
        decreases p.len() - i,
    {
        if p[i] != v[from + i] {
            assert(v@.subrange(from as int, to as int)[i as int] == v@[from + i]);
            return false;
        }
        i += 1;
    }
    assert(forall|j: int| 0 <= j < p@.len() ==> v@.subrange(from as int, to as int)[j] == v@[from + j]);
    true
}

/// Whether `v[from..to]` is exactly `lit`.
pub fn range_is(v: &Vec<char>, from: usize, to: usize, lit: &str) -> (r: bool)
    requires
        from <= to <= v.len(),
    ensures
        r == (v@.subrange(from as int, to as int) == lit@),
{
    let n = lit.unicode_len();
    if n != to - from {
        return false;
    }
    let b = has_prefix(v, from, to, lit);
    if b {
        assert(lit@ =~= v@.subrange(from as int, to as int));
    }
    b
}

/// `c` in ASCII upper case, as `char::to_ascii_uppercase`.
pub fn to_ascii_upper(c: char) -> (r: char)
    ensures
        r == ascii_upper(c),
{
    if 'a' <= c && c <= 'z' {
        let b: u8 = (c as u8) - 32;
        b as char
    } else {
        c
    }
}

/// `c` in ASCII lower case, as `char::to_ascii_lowercase`.
pub fn to_ascii_lower(c: char) -> (r: char)
    ensures
        r == ascii_lower(c),
{
    if 'A' <= c && c <= 'Z' {
        let b: u8 = (c as u8) + 32;
        b as char
    } else {
        c
    }
}

/// Whether `a` and `b` are equal ignoring ASCII case, as
/// `str::eq_ignore_ascii_case`.
pub fn eq_ignore_ascii_case_str(a: &str, b: &str) -> (r: bool)
    ensures
        r == eq_ignore_ascii_case(a@, b@),
{
    let x = chars_of(a);
    let y = chars_of(b);
    if x.len() != y.len() {
        return false;
    }
    let mut i: usize = 0;
    while i < x.len()
        invariant
            x@ == a@,
            y@ == b@,
            x@.len() == y@.len(),
            i <= x@.len(),
            forall|j: int| 0 <= j < i ==> ascii_lower(#[trigger] x@[j]) == ascii_lower(y@[j]),
        decreases x.len() - i,
    {
        if to_ascii_lower(x[i]) != to_ascii_lower(y[i]) {
            return false;
        }
        i += 1;
    }
    true
}

/// `s` with every occurrence of `pat` removed, scanning from the left as
/// `str::replace(pat, "")` does.
pub open spec fn remove_all(s: Seq<char>, pat: Seq<char>) -> Seq<char>
    decreases s.len(),
{
    if pat.len() == 0 || s.len() == 0 {
        s
    } else if pat.is_prefix_of(s) {
        remove_all(s.skip(pat.len() as int), pat)
    } else {
        seq![s[0]] + remove_all(s.drop_first(), pat)
    }
}

/// Removes every occurrence of the non-empty `pat` from `s`.
pub fn remove_all_str(s: &str, pat: &str) -> (r: String)
    requires
        pat@.len() > 0,
    ensures
        r@ == remove_all(s@, pat@),
{
    let v = chars_of(s);
    let n = pat.unicode_len();
    let mut out = String::new();
    let mut i: usize = 0;
    assert(v@.skip(0) =~= v@);
    assert(out@ + remove_all(v@, pat@) =~= remove_all(v@, pat@));
    while i < v.len()
        invariant
            v@ == s@,
            n == pat@.len(),
            n > 0,
            i <= v@.len(),
            out@ + remove_all(v@.skip(i as int), pat@) == remove_all(s@, pat@),
        decreases v.len() - i,
    {
        let ghost rest = v@.skip(i as int);
        assert(v@.subrange(i as int, v@.len() as int) =~= rest);
        if has_prefix(&v, i, v.len(), pat) {
            assert(rest.skip(n as int) =~= v@.skip(i + n));
            i = i + n;
        } else {
            assert(rest.drop_first() =~= v@.skip(i + 1));
            let ghost before = out@;
            push_char(&mut out, v[i]);
            assert(out@ + remove_all(v@.skip(i + 1), pat@) =~= before + (seq![v@[i as int]]
                + remove_all(v@.skip(i + 1), pat@)));
            i = i + 1;
        }
    }
    assert(v@.skip(i as int) =~= Seq::<char>::empty());
    assert(out@ + Seq::<char>::empty() =~= out@);
    out
}

proof fn lemma_trim_start_first(s: Seq<char>, p: spec_fn(char) -> bool)
    ensures
        trim_start_by(s, p).len() > 0 ==> !p(trim_start_by(s, p)[0]),
    decreases s.len(),
{
    if s.len() > 0 && p(s[0]) {
        lemma_trim_start_first(s.drop_first(), p);
    }
}

proof fn lemma_trim_end_shape(s: Seq<char>, p: spec_fn(char) -> bool)
    ensures
        trim_end_by(s, p).len() <= s.len(),
        trim_end_by(s, p) == s.take(trim_end_by(s, p).len() as int),
        trim_end_by(s, p).len() > 0 ==> !p(trim_end_by(s, p).last()),
    decreases s.len(),
{
    if s.len() > 0 && p(s.last()) {
        lemma_trim_end_shape(s.drop_last(), p);
        assert(s.drop_last().take(trim_end_by(s, p).len() as int) =~= s.take(
            trim_end_by(s, p).len() as int,
        ));
    } else {
        assert(s.take(s.len() as int) =~= s);
    }
}

/// A trimmed text that is not empty starts and ends with a character that is
/// not whitespace.
pub proof fn lemma_trim_ends(s: Seq<char>)
    ensures
        trim(s).len() > 0 ==> !is_white_space(trim(s)[0]) && !is_white_space(trim(s).last()),
{
    let p = |c: char| is_white_space(c);
    let t = trim_start_by(s, p);
    lemma_trim_start_first(s, p);
    lemma_trim_end_shape(t, p);
    if trim(s).len() > 0 {
        assert(trim(s)[0] == t[0]);
    }
}

/// Trimming leaves a text alone that starts and ends with a character that is
/// not whitespace.
pub proof fn lemma_trim_keeps(s: Seq<char>)
    requires
        s.len() > 0,
        !is_white_space(s[0]),
        !is_white_space(s.last()),
    ensures
        trim(s) == s,
{
}

/// Lowering an ASCII letter never makes or unmakes whitespace.
pub proof fn lemma_ascii_lower_keeps_space(c: char)
    ensures
        is_white_space(ascii_lower(c)) == is_white_space(c),
{
}

proof fn lemma_trim_start_map(s: Seq<char>, f: spec_fn(char) -> char)
    requires
        forall|c: char| #[trigger] is_white_space(f(c)) == is_white_space(c),
    ensures
        trim_start_by(s.map_values(f), |c: char| is_white_space(c)) == trim_start_by(
            s,
            |c: char| is_white_space(c),
        ).map_values(f),
    decreases s.len(),
{
    let p = |c: char| is_white_space(c);
    let m = s.map_values(f);
    if s.len() > 0 {
        assert(m[0] == f(s[0]));
        assert(is_white_space(f(s[0])) == is_white_space(s[0]));
        if p(s[0]) {
            assert(m.drop_first() =~= s.drop_first().map_values(f));
            lemma_trim_start_map(s.drop_first(), f);
        }
    } else {
        assert(m =~= s.map_values(f));
        assert(trim_start_by(s, p).map_values(f) =~= m);
    }
}

proof fn lemma_trim_end_map(s: Seq<char>, f: spec_fn(char) -> char)
    requires
        forall|c: char| #[trigger] is_white_space(f(c)) == is_white_space(c),
    ensures
        trim_end_by(s.map_values(f), |c: char| is_white_space(c)) == trim_end_by(
            s,
            |c: char| is_white_space(c),
        ).map_values(f),
    decreases s.len(),
{
    let p = |c: char| is_white_space(c);
    let m = s.map_values(f);
    if s.len() > 0 {
        assert(m.last() == f(s.last()));
        assert(is_white_space(f(s.last())) == is_white_space(s.last()));
        if p(s.last()) {
            assert(m.drop_last() =~= s.drop_last().map_values(f));
            lemma_trim_end_map(s.drop_last(), f);
        }
    } else {
        assert(trim_end_by(s, p).map_values(f) =~= m);
    }
}

/// Trimming commutes with a character map that keeps whitespace apart from
/// the rest.
pub proof fn lemma_trim_map(s: Seq<char>, f: spec_fn(char) -> char)
    requires
        forall|c: char| #[trigger] is_white_space(f(c)) == is_white_space(c),
    ensures
        trim(s.map_values(f)) == trim(s).map_values(f),
{
    let p = |c: char| is_white_space(c);
    lemma_trim_start_map(s, f);
    lemma_trim_end_map(trim_start_by(s, p), f);
}

/// Lowering an ASCII letter twice is lowering it once.
pub proof fn lemma_ascii_lower_idempotent(c: char)
    ensures
        ascii_lower(ascii_lower(c)) == ascii_lower(c),
        (c as u32) < 128 ==> (ascii_lower(c) as u32) < 128,
{
}

proof fn lemma_trim_start_keeps_all(s: Seq<char>, p: spec_fn(char) -> bool, q: spec_fn(char) -> bool)
    requires
        forall|i: int| 0 <= i < s.len() ==> q(#[trigger] s[i]),
    ensures
        forall|i: int|
            0 <= i < trim_start_by(s, p).len() ==> q(#[trigger] trim_start_by(s, p)[i]),
    decreases s.len(),
{
    if s.len() > 0 && p(s[0]) {
        let d = s.drop_first();
        assert forall|i: int| 0 <= i < d.len() implies q(#[trigger] d[i]) by {
            assert(d[i] == s[i + 1]);
        }
        lemma_trim_start_keeps_all(d, p, q);
        assert(trim_start_by(s, p) == trim_start_by(d, p));
    } else {
        assert(trim_start_by(s, p) == s);
    }
}

proof fn lemma_trim_end_keeps_all(s: Seq<char>, p: spec_fn(char) -> bool, q: spec_fn(char) -> bool)
    requires
        forall|i: int| 0 <= i < s.len() ==> q(#[trigger] s[i]),
    ensures
        forall|i: int|
            0 <= i < trim_end_by(s, p).len() ==> q(#[trigger] trim_end_by(s, p)[i]),
    decreases s.len(),
{
    if s.len() > 0 && p(s.last()) {
        let d = s.drop_last();
        assert forall|i: int| 0 <= i < d.len() implies q(#[trigger] d[i]) by {
            assert(d[i] == s[i]);
        }
        lemma_trim_end_keeps_all(d, p, q);
        assert(trim_end_by(s, p) == trim_end_by(d, p));
    } else {
        assert(trim_end_by(s, p) == s);
    }
}

/// Every character of `trim(s)` has a property that every character of `s`
/// has.
pub proof fn lemma_trim_keeps_all(s: Seq<char>, q: spec_fn(char) -> bool)
    requires
        forall|i: int| 0 <= i < s.len() ==> q(#[trigger] s[i]),
    ensures
        forall|i: int| 0 <= i < trim(s).len() ==> q(#[trigger] trim(s)[i]),
{
    let p = |c: char| is_white_space(c);
    lemma_trim_start_keeps_all(s, p, q);
    lemma_trim_end_keeps_all(trim_start_by(s, p), p, q);
}

/// Trimming ASCII text leaves ASCII text.
pub proof fn lemma_trim_ascii(s: Seq<char>)
    requires
        is_ascii(s),
    ensures
        is_ascii(trim(s)),
{
    let q = |c: char| (c as u32) < 128;
    assert forall|i: int| 0 <= i < s.len() implies q(#[trigger] s[i]) by {
        assert((s[i] as u32) < 128);
    }
    lemma_trim_keeps_all(s, q);
    assert forall|i: int| 0 <= i < trim(s).len() implies (#[trigger] trim(s)[i] as u32) < 128 by {
        assert(q(trim(s)[i]));
    }
}

/// What `char::escape_default` writes for `c`: a backslash before `t`, `r`
/// or `n` for a tab, carriage return or line feed, and before a quote,
/// double quote or backslash; printable ASCII (`' '` to `'~'`) as it is;
/// otherwise `\u{..}` with the lowercase hexadecimal code.
pub open spec fn escape_char(c: char) -> Seq<char> {
    if c == '\t' {
        seq!['\\', 't']
    } else if c == '\r' {
        seq!['\\', 'r']
    } else if c == '\n' {
        seq!['\\', 'n']
    } else if c == '\'' || c == '"' || c == '\\' {
        seq!['\\', c]
    } else if ' ' <= c && c <= '~' {
        seq![c]
    } else {
        seq!['\\', 'u', '{'] + crate::number::hex_text(c as nat) + seq!['}']
    }
}

/// What `str::escape_default` writes for `s`: each character escaped by
/// [`escape_char`].
pub open spec fn escape_default(s: Seq<char>) -> Seq<char>
    decreases s.len(),
{
    if s.len() == 0 {
        Seq::empty()
    } else {
        escape_default(s.drop_last()) + escape_char(s.last())
    }
}

fn push_escaped_char(out: &mut String, c: char)
    ensures
        final(out)@ == old(out)@ + escape_char(c),
{
    if c == '\t' {
        push_char(out, '\\');
        push_char(out, 't');
    } else if c == '\r' {
        push_char(out, '\\');
        push_char(out, 'r');
    } else if c == '\n' {
        push_char(out, '\\');
        push_char(out, 'n');
    } else if c == '\'' || c == '"' || c == '\\' {
        push_char(out, '\\');
        push_char(out, c);
    } else if ' ' <= c && c <= '~' {
        push_char(out, c);
    } else {
        push_char(out, '\\');
        push_char(out, 'u');
        push_char(out, '{');
        crate::number::push_hex(out, c as u32);
        push_char(out, '}');
    }
    assert(out@ =~= old(out)@ + escape_char(c));
}

/// Appends `s` to `out` with its characters escaped as
/// `str::escape_default` does.
pub fn push_escaped(out: &mut String, s: &str)
    ensures
        final(out)@ == old(out)@ + escape_default(s@),
{
    let v = chars_of(s);
    let mut i: usize = 0;
    while i < v.len()
        invariant
            v@ == s@,
            i <= v@.len(),
            out@ == old(out)@ + escape_default(v@.take(i as int)),
        decreases v.len() - i,
    {
        let ghost before = out@;
        push_escaped_char(out, v[i]);
        assert(v@.take(i + 1).drop_last() =~= v@.take(i as int));
        i += 1;
    }
    assert(v@.take(v@.len() as int) =~= v@);
}

} // verus!

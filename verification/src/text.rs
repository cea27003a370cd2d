//! Character-level specifications of the string operations the library
//! relies on, and verified executable versions of them.
use vstd::prelude::*;
use vstd::string::StrSliceExecFns;
use vstd::string::StringExecFns;

verus! {

broadcast use vstd::string::group_string_axioms;

// ---------------------------------------------------------------------------
// Whitespace and trimming
// ---------------------------------------------------------------------------

/// The Unicode `White_Space` characters: exactly those for which
/// `char::is_whitespace` holds.
pub open spec fn is_space(c: char) -> bool {
    let u = c as u32;
    ||| 0x09 <= u && u <= 0x0D
    ||| u == 0x20
    ||| u == 0x85
    ||| u == 0xA0
    ||| u == 0x1680
    ||| 0x2000 <= u && u <= 0x200A
    ||| u == 0x2028
    ||| u == 0x2029
    ||| u == 0x202F
    ||| u == 0x205F
    ||| u == 0x3000
}

/// `s` without its leading whitespace.
pub open spec fn trim_start(s: Seq<char>) -> Seq<char>
    decreases s.len(),
{
    if s.len() > 0 && is_space(s[0]) {
        trim_start(s.drop_first())
    } else {
        s
    }
}

/// `s` without its trailing whitespace.
pub open spec fn trim_end(s: Seq<char>) -> Seq<char>
    decreases s.len(),
{
    if s.len() > 0 && is_space(s.last()) {
        trim_end(s.drop_last())
    } else {
        s
    }
}

/// `s` without leading and trailing whitespace (what `str::trim` returns).
pub open spec fn trim(s: Seq<char>) -> Seq<char> {
    trim_end(trim_start(s))
}

/// Whether `c` is a Unicode whitespace character.
pub fn char_is_space(c: char) -> (b: bool)
    ensures
        b == is_space(c),
{
    let u = c as u32;
    (0x09 <= u && u <= 0x0D) || u == 0x20 || u == 0x85 || u == 0xA0 || u == 0x1680 || (0x2000
        <= u && u <= 0x200A) || u == 0x2028 || u == 0x2029 || u == 0x202F || u == 0x205F || u
        == 0x3000
}

/// The characters of `s`, in order.
pub fn chars_of(s: &str) -> (v: Vec<char>)
    ensures
        v@ == s@,
{
    let mut v: Vec<char> = Vec::new();
    for c in it: s.chars()
        invariant
            v@ == it.seq().take(it.index() as int),
            it.seq() == s@,
    {
        v.push(c);
    }
    v
}

/// `s` with leading and trailing whitespace removed.
pub fn trim_str(s: &str) -> (r: &str)
    ensures
        r@ == trim(s@),
{
    let v = chars_of(s);
    let n = v.len();
    let mut i: usize = 0;
    assert(s@.subrange(0, n as int) =~= s@);
    while i < n && char_is_space(v[i])
        invariant
            i <= n,
            n == s@.len(),
            v@ == s@,
            trim_start(s@) == trim_start(s@.subrange(i as int, n as int)),
        decreases n - i,
    {
        assert(s@.subrange(i as int, n as int).drop_first() =~= s@.subrange(i + 1, n as int));
        i = i + 1;
    }
    assert(trim_start(s@) == s@.subrange(i as int, n as int));
    let mut j: usize = n;
    while j > i && char_is_space(v[j - 1])
        invariant
            i <= j <= n,
            n == s@.len(),
            v@ == s@,
            trim(s@) == trim_end(s@.subrange(i as int, j as int)),
        decreases j,
    {
        assert(s@.subrange(i as int, j as int).drop_last() =~= s@.subrange(i as int, j - 1));
        j = j - 1;
    }
    s.substring_char(i, j)
}


// ---------------------------------------------------------------------------
// Searching for a character
// ---------------------------------------------------------------------------

/// Index of the first `c` in `s`, or `s.len()` when `s` holds no `c`.
pub open spec fn find(s: Seq<char>, c: char) -> nat
    decreases s.len(),
{
    if s.len() == 0 {
        0
    } else if s[0] == c {
        0
    } else {
        1 + find(s.drop_first(), c)
    }
}

/// The part of `s` before its first `c`; all of `s` when it holds no `c`
/// (the first piece of `str::split(c)`).
pub open spec fn before(s: Seq<char>, c: char) -> Seq<char> {
    s.take(find(s, c) as int)
}

/// The part of `s` after its first `c` (meaningful only where `s` holds a `c`).
pub open spec fn after(s: Seq<char>, c: char) -> Seq<char> {
    s.skip(find(s, c) + 1int)
}

/// `find` is the index of the first occurrence, and no other index.
pub proof fn lemma_find(s: Seq<char>, c: char)
    ensures
        find(s, c) <= s.len(),
        forall|j: int| 0 <= j < find(s, c) ==> s[j] != c,
        find(s, c) < s.len() ==> s[find(s, c) as int] == c,
        (find(s, c) == s.len()) <==> !s.contains(c),
    decreases s.len(),
{
    if s.len() > 0 && s[0] != c {
        lemma_find(s.drop_first(), c);
        assert forall|j: int| 0 <= j < find(s, c) implies s[j] != c by {
            if j > 0 {
                assert(s[j] == s.drop_first()[j - 1]);
            }
        }
        if !s.contains(c) {
            assert(!s.drop_first().contains(c));
        }
        if s.drop_first().contains(c) {
            let k = choose|k: int| 0 <= k < s.drop_first().len() && s.drop_first()[k] == c;
            assert(s[k + 1] == c);
        }
    }
}

/// Any index with the properties of the first occurrence is `find`.
pub proof fn lemma_find_at(s: Seq<char>, c: char, k: int)
    requires
        0 <= k <= s.len(),
        forall|j: int| 0 <= j < k ==> s[j] != c,
        k < s.len() ==> s[k] == c,
    ensures
        find(s, c) == k,
{
    lemma_find(s, c);
    if find(s, c) < k {
        assert(s[find(s, c) as int] == c);
    }
    if k < find(s, c) {
        assert(s[k] != c);
    }
}

/// Index of the first `c` in `v` within `from..to`, or `to` when none.
pub fn find_between(v: &Vec<char>, from: usize, to: usize, c: char) -> (k: usize)
    requires
        from <= to <= v@.len(),
    ensures
        k == from + find(v@.subrange(from as int, to as int), c),
        from <= k <= to,
{
    let mut k = from;
    while k < to && v[k] != c
        invariant
            from <= k <= to,
            to <= v@.len(),
            forall|j: int| from <= j < k ==> v@[j] != c,
        decreases to - k,
    {
        k = k + 1;
    }
    proof {
        lemma_find_at(v@.subrange(from as int, to as int), c, k - from);
    }
    k
}

// ---------------------------------------------------------------------------
// Lines
// ---------------------------------------------------------------------------

/// `s` without one trailing carriage return.
pub open spec fn strip_cr(s: Seq<char>) -> Seq<char> {
    if s.len() > 0 && s.last() == '\r' {
        s.drop_last()
    } else {
        s
    }
}

/// The lines of `s` as `str::lines` yields them: `s` is cut after each
/// `'\n'`, a final piece with no `'\n'` is a line when it is not empty, and
/// a line that ended in `'\n'` loses that `'\n'` and then one `'\r'` before
/// it, if there is one.
pub open spec fn lines_of(s: Seq<char>) -> Seq<Seq<char>>
    decreases s.len(),
{
    if s.len() == 0 {
        seq![]
    } else if find(s, '\n') >= s.len() {
        seq![s]
    } else {
        seq![strip_cr(s.take(find(s, '\n') as int))] + lines_of(s.skip(find(s, '\n') + 1int))
    }
}

/// The lines of `s` (see `lines_of`).
pub fn split_lines(s: &str) -> (lines: Vec<String>)
    ensures
        lines.deep_view() == lines_of(s@),
{
    let v = chars_of(s);
    let n = v.len();
    let mut out: Vec<String> = Vec::new();
    let mut start: usize = 0;
    assert(s@.skip(0) =~= s@);
    while start < n
        invariant
            start <= n,
            n == s@.len(),
            v@ == s@,
            lines_of(s@) == out.deep_view() + lines_of(s@.skip(start as int)),
        decreases n - start,
    {
        let ghost rest = s@.skip(start as int);
        assert(rest =~= s@.subrange(start as int, n as int));
        let j = find_between(&v, start, n, '\n');
        let ghost old_out = out.deep_view();
        if j == n {
            let line = String::from_str(s.substring_char(start, n));
            assert(line@ =~= rest);
            out.push(line);
            assert(out.deep_view() =~= old_out.push(rest));
            assert(s@.skip(n as int) =~= Seq::<char>::empty());
            assert(lines_of(s@.skip(n as int)) =~= Seq::<Seq<char>>::empty());
            start = n;
        } else {
            let mut e = j;
            if e > start && v[e - 1] == '\r' {
                e = e - 1;
            }
            let line = String::from_str(s.substring_char(start, e));
            assert(rest.take(j - start) =~= s@.subrange(start as int, j as int));
            assert(line@ =~= strip_cr(rest.take(j - start)));
            assert(rest.skip(j - start + 1) =~= s@.skip(j + 1));
            out.push(line);
            assert(out.deep_view() =~= old_out.push(line@));
            assert(old_out.push(line@) + lines_of(s@.skip(j + 1)) =~= old_out + (seq![line@]
                + lines_of(s@.skip(j + 1))));
            start = j + 1;
        }
    }
    assert(s@.skip(n as int) =~= Seq::<char>::empty());
    assert(out.deep_view() + Seq::<Seq<char>>::empty() =~= out.deep_view());
    out
}


// ---------------------------------------------------------------------------
// Comparing and matching
// ---------------------------------------------------------------------------

/// Whether `v` and `w` agree at every index below `k`.
fn agree_upto(v: &Vec<char>, w: &Vec<char>, from_v: usize, k: usize) -> (r: usize)
    requires
        from_v + k <= v.len(),
        k <= w.len(),
    ensures
        r <= k,
        forall|j: int| 0 <= j < r ==> v@[from_v + j] == w@[j],
        r < k ==> v@[from_v + r] != w@[r as int],
{
    let mut i: usize = 0;
    while i < k && v[from_v + i] == w[i]
        invariant
            i <= k,
            from_v + k <= v.len(),
            k <= w.len(),
            forall|j: int| 0 <= j < i ==> v@[from_v + j] == w@[j],
        decreases k - i,
    {
        i = i + 1;
    }
    i
}

/// Whether `a` and `b` hold the same characters.
pub fn str_eq(a: &str, b: &str) -> (r: bool)
    ensures
        r == (a@ == b@),
{
    let va = chars_of(a);
    let vb = chars_of(b);
    if va.len() != vb.len() {
        return false;
    }
    let k = agree_upto(&va, &vb, 0, vb.len());
    if k == vb.len() {
        assert(a@ =~= b@);
        true
    } else {
        false
    }
}

/// Whether `s` starts with `p`.
pub fn starts_with_str(s: &str, p: &str) -> (r: bool)
    ensures
        r == p@.is_prefix_of(s@),
{
    let vs = chars_of(s);
    let vp = chars_of(p);
    if vp.len() > vs.len() {
        return false;
    }
    let k = agree_upto(&vs, &vp, 0, vp.len());
    if k == vp.len() {
        assert(p@ =~= s@.subrange(0, p@.len() as int));
        true
    } else {
        assert(s@.subrange(0, p@.len() as int)[k as int] != p@[k as int]);
        false
    }
}

/// `s` without the prefix `p`, or `None` when `s` does not start with `p`
/// (what `str::strip_prefix` returns).
pub fn strip_prefix_str<'a>(s: &'a str, p: &str) -> (r: Option<&'a str>)
    ensures
        r is Some <==> p@.is_prefix_of(s@),
        r matches Some(rest) ==> rest@ == s@.skip(p@.len() as int),
{
    if starts_with_str(s, p) {
        let n = s.unicode_len();
        let m = p.unicode_len();
        Some(s.substring_char(m, n))
    } else {
        None
    }
}

/// Whether `needle` occurs in `hay` as a run of consecutive characters.
pub open spec fn occurs_in(needle: Seq<char>, hay: Seq<char>) -> bool {
    exists|i: int|
        0 <= i && i + needle.len() <= hay.len() && #[trigger] hay.subrange(i, i + needle.len())
            == needle
}

/// Whether `needle` occurs in `hay` (what `str::contains` with a string
/// pattern returns).
pub fn contains_str(hay: &str, needle: &str) -> (r: bool)
    ensures
        r == occurs_in(needle@, hay@),
{
    let vh = chars_of(hay);
    let vn = chars_of(needle);
    let n = vh.len();
    let m = vn.len();
    if m > n {
        return false;
    }
    let mut i: usize = 0;
    while i <= n - m
        invariant
            m <= n,
            n == hay@.len(),
            m == needle@.len(),
            vh@ == hay@,
            vn@ == needle@,
            forall|j: int| 0 <= j < i ==> #[trigger] hay@.subrange(j, j + m) != needle@,
        decreases n - m + 1 - i,
    {
        let k = agree_upto(&vh, &vn, i, m);
        if k == m {
            assert(hay@.subrange(i as int, i + m) =~= needle@);
            return true;
        }
        assert(hay@.subrange(i as int, i + m)[k as int] != needle@[k as int]);
        i = i + 1;
    }
    assert forall|j: int| 0 <= j && j + m <= n implies #[trigger] hay@.subrange(j, j + m)
        != needle@ by {
        assert(j < i);
    }
    false
}

// ---------------------------------------------------------------------------
// Lexicographic order
// ---------------------------------------------------------------------------

/// `a` comes no later than `b` in the lexicographic order of code points,
/// which is the order of `String` (byte order of UTF-8 agrees with it).
pub open spec fn lex_le(a: Seq<char>, b: Seq<char>) -> bool
    decreases a.len(),
{
    if a.len() == 0 {
        true
    } else if b.len() == 0 {
        false
    } else if a[0] < b[0] {
        true
    } else if a[0] > b[0] {
        false
    } else {
        lex_le(a.drop_first(), b.drop_first())
    }
}

/// Two sequences that agree on their first `k` characters compare as what
/// follows those characters compares.
pub proof fn lemma_lex_le_skip(a: Seq<char>, b: Seq<char>, k: int)
    requires
        0 <= k <= a.len(),
        k <= b.len(),
        forall|j: int| 0 <= j < k ==> a[j] == b[j],
    ensures
        lex_le(a, b) == lex_le(a.skip(k), b.skip(k)),
    decreases k,
{
    if k > 0 {
        assert(a.drop_first().skip(k - 1) =~= a.skip(k));
        assert(b.drop_first().skip(k - 1) =~= b.skip(k));
        assert(a[0] == b[0]);
        lemma_lex_le_skip(a.drop_first(), b.drop_first(), k - 1);
    } else {
        assert(a.skip(0) =~= a);
        assert(b.skip(0) =~= b);
    }
}

/// Any two sequences are ordered one way or the other.
pub proof fn lemma_lex_le_total(a: Seq<char>, b: Seq<char>)
    ensures
        lex_le(a, b) || lex_le(b, a),
    decreases a.len(),
{
    if a.len() > 0 && b.len() > 0 && a[0] == b[0] {
        lemma_lex_le_total(a.drop_first(), b.drop_first());
    }
}

/// The order is transitive.
pub proof fn lemma_lex_le_trans(a: Seq<char>, b: Seq<char>, c: Seq<char>)
    requires
        lex_le(a, b),
        lex_le(b, c),
    ensures
        lex_le(a, c),
    decreases a.len(),
{
    if a.len() > 0 && b.len() > 0 && c.len() > 0 && a[0] == b[0] && b[0] == c[0] {
        lemma_lex_le_trans(a.drop_first(), b.drop_first(), c.drop_first());
    }
}

/// The order is antisymmetric.
pub proof fn lemma_lex_le_antisym(a: Seq<char>, b: Seq<char>)
    requires
        lex_le(a, b),
        lex_le(b, a),
    ensures
        a == b,
    decreases a.len(),
{
    if a.len() > 0 {
        lemma_lex_le_antisym(a.drop_first(), b.drop_first());
        assert(a[0] == b[0]);
        assert(a =~= seq![a[0]] + a.drop_first());
        assert(b =~= seq![b[0]] + b.drop_first());
    } else {
        assert(b.len() == 0);
        assert(a =~= b);
    }
}

/// Whether `a` comes no later than `b` (see `lex_le`).
pub fn str_le(a: &str, b: &str) -> (r: bool)
    ensures
        r == lex_le(a@, b@),
{
    let va = chars_of(a);
    let vb = chars_of(b);
    let k = if va.len() < vb.len() {
        va.len()
    } else {
        vb.len()
    };
    let i = agree_upto(&va, &vb, 0, k);
    proof {
        lemma_lex_le_skip(a@, b@, i as int);
    }
    if i == va.len() {
        true
    } else if i == vb.len() {
        false
    } else {
        assert(a@.skip(i as int)[0] == va@[i as int]);
        assert(b@.skip(i as int)[0] == vb@[i as int]);
        va[i] < vb[i]
    }
}

} // verus!

//! Character-level text utilities with specifications over `Seq<char>`.
//!
//! Strings enter the library through [`to_chars`] and leave it through
//! [`from_chars`]; the work in between is done on character vectors.
use vstd::prelude::*;

verus! {

/// The Unicode `White_Space` property, as used by `char::is_whitespace`,
/// `str::trim` and `str::split_whitespace`.
pub open spec fn is_ws(c: char) -> bool {
    ||| ('\u{9}' <= c && c <= '\u{d}')
    ||| c == ' '
    ||| c == '\u{85}'
    ||| c == '\u{a0}'
    ||| c == '\u{1680}'
    ||| ('\u{2000}' <= c && c <= '\u{200a}')
    ||| c == '\u{2028}'
    ||| c == '\u{2029}'
    ||| c == '\u{202f}'
    ||| c == '\u{205f}'
    ||| c == '\u{3000}'
}

/// Executable whitespace test.
pub fn is_whitespace(c: char) -> (b: bool)
    ensures
        b == is_ws(c),
{
    ('\u{9}' <= c && c <= '\u{d}') || c == ' ' || c == '\u{85}' || c == '\u{a0}' || c == '\u{1680}'
        || ('\u{2000}' <= c && c <= '\u{200a}') || c == '\u{2028}' || c == '\u{2029}' || c
        == '\u{202f}' || c == '\u{205f}' || c == '\u{3000}'
}

/// `s` with its leading whitespace removed.
pub open spec fn trim_start(s: Seq<char>) -> Seq<char>
    decreases s.len(),
{
    if s.len() > 0 && is_ws(s[0]) {
        trim_start(s.drop_first())
    } else {
        s
    }
}

/// `s` with its trailing whitespace removed.
pub open spec fn trim_end(s: Seq<char>) -> Seq<char>
    decreases s.len(),
{
    if s.len() > 0 && is_ws(s.last()) {
        trim_end(s.drop_last())
    } else {
        s
    }
}

/// `s` with leading and trailing whitespace removed (`str::trim`).
pub open spec fn trim(s: Seq<char>) -> Seq<char> {
    trim_end(trim_start(s))
}

/// A sequence that neither starts nor ends with whitespace.
pub open spec fn is_trimmed(s: Seq<char>) -> bool {
    s.len() > 0 ==> !is_ws(s[0]) && !is_ws(s.last())
}

/// Whether `p` is a prefix of `s`.
pub open spec fn starts_with(s: Seq<char>, p: Seq<char>) -> bool {
    p.len() <= s.len() && s.take(p.len() as int) == p
}

/// Whether `p` is a suffix of `s`.
pub open spec fn ends_with(s: Seq<char>, p: Seq<char>) -> bool {
    p.len() <= s.len() && s.skip(s.len() - p.len()) == p
}

/// Removes the suffix `p` as long as `s` ends with it (`str::trim_end_matches`).
pub open spec fn trim_end_matches(s: Seq<char>, p: Seq<char>) -> Seq<char>
    decreases s.len(),
{
    if p.len() > 0 && ends_with(s, p) {
        trim_end_matches(s.take(s.len() - p.len()), p)
    } else {
        s
    }
}

/// Index of the first occurrence of `c` in `s` at or after `from`, or `s.len()`.
pub open spec fn find_from(s: Seq<char>, c: char, from: int) -> int
    decreases s.len() - from,
{
    if from >= s.len() {
        s.len() as int
    } else if s[from] == c {
        from
    } else {
        find_from(s, c, from + 1)
    }
}

/// `find_from` lands inside `[from, len]` on a non-matching stretch.
pub proof fn lemma_find_from(s: Seq<char>, c: char, from: int)
    requires
        0 <= from <= s.len(),
    ensures
        from <= find_from(s, c, from) <= s.len(),
        forall|j: int| from <= j < find_from(s, c, from) ==> s[j] != c,
        find_from(s, c, from) < s.len() ==> s[find_from(s, c, from)] == c,
    decreases s.len() - from,
{
    if from < s.len() && s[from] != c {
        lemma_find_from(s, c, from + 1);
    }
}

/// A line taken off by `str::lines`: one carriage return before the newline goes too.
pub open spec fn strip_cr(line: Seq<char>) -> Seq<char> {
    if line.len() > 0 && line.last() == '\r' {
        line.drop_last()
    } else {
        line
    }
}

/// The lines of `s` as `str::lines` yields them: split at `\n` (a preceding `\r`
/// is dropped as well); a final line ending yields no empty line after it.
pub open spec fn lines(s: Seq<char>) -> Seq<Seq<char>>
    decreases s.len(),
{
    if s.len() == 0 {
        seq![]
    } else {
        let i = find_from(s, '\n', 0);
        proof {
            lemma_find_from(s, '\n', 0);
        }
        if i >= s.len() {
            seq![s]
        } else {
            seq![strip_cr(s.take(i))] + lines(s.skip(i + 1))
        }
    }
}

/// Replaces every non-overlapping occurrence of `pat`, scanning left to right
/// (`str::replace`, for a non-empty pattern).
pub open spec fn replace_all(s: Seq<char>, pat: Seq<char>, rep: Seq<char>) -> Seq<char>
    decreases s.len(),
{
    if s.len() == 0 || pat.len() == 0 {
        s
    } else if starts_with(s, pat) {
        rep + replace_all(s.skip(pat.len() as int), pat, rep)
    } else {
        seq![s[0]] + replace_all(s.drop_first(), pat, rep)
    }
}

/// Index of the first whitespace character of `s` at or after `from`, or `s.len()`.
pub open spec fn find_ws_from(s: Seq<char>, from: int) -> int
    decreases s.len() - from,
{
    if from >= s.len() {
        s.len() as int
    } else if is_ws(s[from]) {
        from
    } else {
        find_ws_from(s, from + 1)
    }
}

/// `find_ws_from` lands inside `[from, len]` after a run of non-whitespace.
pub proof fn lemma_find_ws_from(s: Seq<char>, from: int)
    requires
        0 <= from <= s.len(),
    ensures
        from <= find_ws_from(s, from) <= s.len(),
        forall|j: int| from <= j < find_ws_from(s, from) ==> !is_ws(s[j]),
        find_ws_from(s, from) < s.len() ==> is_ws(s[find_ws_from(s, from)]),
    decreases s.len() - from,
{
    if from < s.len() && !is_ws(s[from]) {
        lemma_find_ws_from(s, from + 1);
    }
}

/// The first whitespace at or after `j` is at `k`.
pub proof fn lemma_find_ws_from_is(t: Seq<char>, j: int, k: int)
    requires
        0 <= j <= k <= t.len(),
        forall|m: int| j <= m < k ==> !is_ws(t[m]),
        k < t.len() ==> is_ws(t[k]),
    ensures
        find_ws_from(t, j) == k,
    decreases k - j,
{
    if j < k {
        lemma_find_ws_from_is(t, j + 1, k);
    }
}

/// `trim_start` only shortens, and what it leaves starts with a non-whitespace.
pub proof fn lemma_trim_start_shape(s: Seq<char>)
    ensures
        trim_start(s).len() <= s.len(),
        trim_start(s).len() > 0 ==> !is_ws(trim_start(s)[0]),
    decreases s.len(),
{
    if s.len() > 0 && is_ws(s[0]) {
        lemma_trim_start_shape(s.drop_first());
    }
}

/// The whitespace-separated words of `s` (`str::split_whitespace`).
pub open spec fn split_ws(s: Seq<char>) -> Seq<Seq<char>>
    decreases s.len(),
{
    let t = trim_start(s);
    proof {
        lemma_trim_start_shape(s);
    }
    if t.len() == 0 {
        seq![]
    } else {
        let k = find_ws_from(t, 0);
        proof {
            lemma_find_ws_from(t, 0);
            lemma_find_ws_from(t, 1);
        }
        seq![t.take(k)] + split_ws(t.skip(k))
    }
}

/// The parts joined with `sep` between neighbours (`[T]::join`).
pub open spec fn join(parts: Seq<Seq<char>>, sep: Seq<char>) -> Seq<char>
    decreases parts.len(),
{
    if parts.len() == 0 {
        seq![]
    } else if parts.len() == 1 {
        parts[0]
    } else {
        join(parts.drop_last(), sep) + sep + parts.last()
    }
}

/// The decimal digit character for `d < 10`.
pub open spec fn digit(d: nat) -> char {
    ((d + 48) as u8) as char
}

/// The decimal representation of `n`, without leading zeros.
pub open spec fn decimal(n: nat) -> Seq<char>
    decreases n,
{
    if n < 10 {
        seq![digit(n)]
    } else {
        decimal(n / 10) + seq![digit(n % 10)]
    }
}

/// `base` joined with a relative `name` as `Path::join` does: a separator is
/// put between them unless `base` is empty or already ends with one.
pub open spec fn path_join(base: Seq<char>, name: Seq<char>) -> Seq<char> {
    if base.len() == 0 || base.last() == '/' {
        base + name
    } else {
        base + seq!['/'] + name
    }
}

/// Whether `c` occurs in `s`.
pub open spec fn has_char(s: Seq<char>, c: char) -> bool {
    exists|i: int| 0 <= i < s.len() && s[i] == c
}

/// The lines, each followed by a newline character.
pub open spec fn terminated(ls: Seq<Seq<char>>) -> Seq<char>
    decreases ls.len(),
{
    if ls.len() == 0 {
        seq![]
    } else {
        ls[0] + seq!['\n'] + terminated(ls.drop_first())
    }
}

/// Appending one more terminated line.
pub proof fn lemma_terminated_push(ls: Seq<Seq<char>>, x: Seq<char>)
    ensures
        terminated(ls.push(x)) == terminated(ls) + x + seq!['\n'],
    decreases ls.len(),
{
    if ls.len() == 0 {
        assert(ls.push(x).drop_first() =~= Seq::<Seq<char>>::empty());
        assert(terminated(Seq::<Seq<char>>::empty()) =~= Seq::<char>::empty());
        assert(terminated(ls) =~= Seq::<char>::empty());
        assert(terminated(ls.push(x)) =~= x + seq!['\n']);
    } else {
        lemma_terminated_push(ls.drop_first(), x);
        assert(ls.push(x).drop_first() =~= ls.drop_first().push(x));
        assert(terminated(ls.push(x)) =~= terminated(ls) + x + seq!['\n']);
    }
}

/// Reading back terminated lines gives the lines, when none holds a newline
/// or ends with a carriage return.
pub proof fn lemma_lines_terminated(ls: Seq<Seq<char>>)
    requires
        forall|i: int| 0 <= i < ls.len() ==> !has_char(#[trigger] ls[i], '\n'),
        forall|i: int| 0 <= i < ls.len() ==> strip_cr(#[trigger] ls[i]) == ls[i],
    ensures
        lines(terminated(ls)) == ls,
    decreases ls.len(),
{
    if ls.len() > 0 {
        let rest = ls.drop_first();
        assert forall|i: int| 0 <= i < rest.len() implies !has_char(#[trigger] rest[i], '\n') by {
            assert(rest[i] == ls[i + 1]);
        }
        assert forall|i: int| 0 <= i < rest.len() implies strip_cr(#[trigger] rest[i]) == rest[i] by {
            assert(rest[i] == ls[i + 1]);
        }
        lemma_lines_terminated(rest);
        assert(!has_char(ls[0], '\n'));
        lemma_lines_cons(ls[0], terminated(rest));
        assert(lines(terminated(ls)) =~= ls);
    } else {
        assert(lines(Seq::<char>::empty()) =~= ls);
    }
}

/// Splitting off a first line that holds no newline.
pub proof fn lemma_lines_cons(a: Seq<char>, rest: Seq<char>)
    requires
        !has_char(a, '\n'),
    ensures
        lines(a + seq!['\n'] + rest) == seq![strip_cr(a)] + lines(rest),
{
    let s = a + seq!['\n'] + rest;
    assert forall|m: int| 0 <= m < a.len() implies s[m] != '\n' by {
        assert(s[m] == a[m]);
    }
    lemma_find_from_is(s, '\n', 0, a.len() as int);
    assert(s.take(a.len() as int) =~= a);
    assert(s.skip(a.len() as int + 1) =~= rest);
}

/// A trimmed sequence is its own trim.
pub proof fn lemma_trim_trimmed(s: Seq<char>)
    requires
        is_trimmed(s),
    ensures
        trim(s) == s,
{
    if s.len() > 0 {
        assert(trim_start(s) == s);
        assert(trim_end(s) == s);
    } else {
        assert(trim_start(s) == s);
    }
}

/// Copies the characters of a string slice into a vector.
pub fn to_chars(s: &str) -> (v: Vec<char>)
    ensures
        v@ == s@,
{
    let mut v: Vec<char> = Vec::new();
    for c in it: s.chars()
        invariant
            v@ == it.seq().take(it.index() as int),
            it.seq() == s@,
    {
        v.push(c);
    }
    v
}

/// Builds a string from characters with std's `collect` into a `String`
/// (`FromIterator<&char>`); the contract claims that the string holds exactly
/// these characters, in order.
#[verifier::external_body]
pub(crate) fn from_chars(v: &[char]) -> (s: String)
    ensures
        s@ == v@,
{
    v.iter().collect::<String>()
}

/// Copies `s[from..to]` into a new vector.
pub fn slice_chars(s: &[char], from: usize, to: usize) -> (v: Vec<char>)
    requires
        from <= to <= s@.len(),
    ensures
        v@ == s@.subrange(from as int, to as int),
{
    let mut v: Vec<char> = Vec::new();
    let mut i = from;
    while i < to
        invariant
            from <= i <= to <= s@.len(),
            v@ == s@.subrange(from as int, i as int),
        decreases to - i,
    {
        v.push(s[i]);
        i += 1;
    }
    v
}

/// Appends `t` to `v`.
pub fn push_all(v: &mut Vec<char>, t: &[char])
    ensures
        final(v)@ == old(v)@ + t@,
{
    let mut i: usize = 0;
    while i < t.len()
        invariant
            i <= t@.len(),
            v@ == old(v)@ + t@.take(i as int),
        decreases t.len() - i,
    {
        v.push(t[i]);
        i += 1;
        assert(t@.take(i as int) == t@.take(i - 1) + seq![t@[i - 1]]);
    }
    assert(t@.take(t@.len() as int) == t@);
}

/// Appends the characters of `t` to `v`.
pub fn push_str(v: &mut Vec<char>, t: &str)
    ensures
        final(v)@ == old(v)@ + t@,
{
    let tc = to_chars(t);
    push_all(v, &tc);
}

/// Character-wise equality of two slices.
pub fn eq_chars(a: &[char], b: &[char]) -> (r: bool)
    ensures
        r == (a@ == b@),
{
    if a.len() != b.len() {
        return false;
    }
    let mut i: usize = 0;
    while i < a.len()
        invariant
            a@.len() == b@.len(),
            i <= a@.len(),
            forall|j: int| 0 <= j < i ==> a@[j] == b@[j],
        decreases a.len() - i,
    {
        if a[i] != b[i] {
            return false;
        }
        i += 1;
    }
    assert(a@ =~= b@);
    true
}

/// Whether `s` has `p` at position `at`.
/// The pieces of `s` between occurrences of `c` (`str::split` with a char):
/// one more piece than there are occurrences.
pub open spec fn split_char(s: Seq<char>, c: char) -> Seq<Seq<char>>
    decreases s.len(),
{
    let i = find_from(s, c, 0);
    if i >= s.len() {
        seq![s]
    } else {
        proof {
            lemma_find_from(s, c, 0);
        }
        seq![s.take(i)] + split_char(s.skip(i + 1), c)
    }
}

/// Splits `s` at each occurrence of `c`.
pub fn split_char_chars(s: &[char], c: char) -> (v: Vec<Vec<char>>)
    ensures
        v.deep_view() == split_char(s@, c),
{
    let mut out: Vec<Vec<char>> = Vec::new();
    let mut start: usize = 0;
    assert(s@.skip(0) =~= s@);
    assert(out.deep_view() =~= Seq::<Seq<char>>::empty());
    loop
        invariant
            start <= s@.len(),
            out.deep_view() + split_char(s@.skip(start as int), c) == split_char(s@, c),
        decreases s@.len() - start,
    {
        let mut k: usize = start;
        while k < s.len() && s[k] != c
            invariant
                start <= k <= s@.len(),
                forall|m: int| start <= m < k ==> s@[m] != c,
            decreases s.len() - k,
        {
            k += 1;
        }
        let ghost t = s@.skip(start as int);
        proof {
            lemma_find_from_is(t, c, 0, k - start);
        }
        let piece = slice_chars(s, start, k);
        let ghost before = out.deep_view();
        assert(piece.deep_view() =~= piece@);
        out.push(piece);
        proof {
            assert(out.deep_view() =~= before.push(piece@));
        }
        if k >= s.len() {
            proof {
                assert(t.take(k - start) =~= t);
                assert(piece@ =~= t);
                assert(split_char(t, c) == seq![t]);
                assert(before + seq![t] =~= before.push(t));
            }
            return out;
        }
        proof {
            assert(t.take(k - start) =~= s@.subrange(start as int, k as int));
            assert(t.skip(k - start + 1) =~= s@.skip(k + 1));
            assert(split_char(t, c) == seq![t.take(k - start)] + split_char(t.skip(k - start + 1), c));
            assert(before + split_char(t, c) =~= before.push(piece@) + split_char(s@.skip(k + 1), c));
        }
        start = k + 1;
    }
}

/// Whether two strings are equal.
pub fn eq_str(a: &str, b: &str) -> (r: bool)
    ensures
        r == (a@ == b@),
{
    let ca = to_chars(a);
    let cb = to_chars(b);
    eq_chars(ca.as_slice(), cb.as_slice())
}

pub fn matches_at(s: &[char], at: usize, p: &[char]) -> (r: bool)
    requires
        at <= s@.len(),
    ensures
        r == starts_with(s@.skip(at as int), p@),
{
    if p.len() > s.len() - at {
        return false;
    }
    let mut i: usize = 0;
    while i < p.len()
        invariant
            at + p@.len() <= s@.len(),
            s@.len() <= usize::MAX,
            i <= p@.len(),
            forall|j: int| 0 <= j < i ==> s@[at + j] == p@[j],
        decreases p.len() - i,
    {
        if s[at + i] != p[i] {
            assert(s@.skip(at as int).take(p@.len() as int)[i as int] != p@[i as int]);
            return false;
        }
        i += 1;
    }
    assert(s@.skip(at as int).take(p@.len() as int) =~= p@);
    true
}

/// Whether `p` occurs in `s` (`str::contains` with a string pattern).
pub open spec fn contains_seq(s: Seq<char>, p: Seq<char>) -> bool {
    exists|i: int| 0 <= i <= s.len() && #[trigger] starts_with(s.skip(i), p)
}

/// Whether `p` occurs in `s`.
pub fn contains_chars(s: &[char], p: &[char]) -> (r: bool)
    ensures
        r == contains_seq(s@, p@),
{
    let mut i: usize = 0;
    while i < s.len()
        invariant
            i <= s@.len(),
            forall|j: int| 0 <= j < i ==> !#[trigger] starts_with(s@.skip(j), p@),
        decreases s@.len() - i,
    {
        if matches_at(s, i, p) {
            return true;
        }
        i += 1;
    }
    matches_at(s, i, p)
}

/// Whether `p` occurs in `s`.
pub fn contains_str(s: &str, p: &str) -> (r: bool)
    ensures
        r == contains_seq(s@, p@),
{
    let cs = to_chars(s);
    let cp = to_chars(p);
    contains_chars(cs.as_slice(), cp.as_slice())
}

/// Whether `s` starts with `p`.
pub fn has_prefix(s: &[char], p: &[char]) -> (r: bool)
    ensures
        r == starts_with(s@, p@),
{
    let r = matches_at(s, 0, p);
    assert(s@.skip(0) == s@);
    r
}

/// Whether `s` ends with `p`.
pub fn has_suffix(s: &[char], p: &[char]) -> (r: bool)
    ensures
        r == ends_with(s@, p@),
{
    if p.len() > s.len() {
        return false;
    }
    let r = matches_at(s, s.len() - p.len(), p);
    assert(s@.skip(s@.len() - p@.len()).take(p@.len() as int) =~= s@.skip(s@.len() - p@.len()));
    r
}

proof fn lemma_trim_start_skip(s: Seq<char>, k: int)
    requires
        0 <= k <= s.len(),
        forall|j: int| 0 <= j < k ==> is_ws(#[trigger] s[j]),
    ensures
        trim_start(s) == trim_start(s.skip(k)),
    decreases k,
{
    if k > 0 {
        assert(is_ws(s[0]));
        let t = s.drop_first();
        assert forall|j: int| 0 <= j < k - 1 implies is_ws(#[trigger] t[j]) by {
            assert(t[j] == s[j + 1]);
        }
        lemma_trim_start_skip(t, k - 1);
        assert(t.skip(k - 1) =~= s.skip(k));
    } else {
        assert(s.skip(0) =~= s);
    }
}

proof fn lemma_trim_end_take(s: Seq<char>, k: int)
    requires
        0 <= k <= s.len(),
        forall|j: int| k <= j < s.len() ==> is_ws(#[trigger] s[j]),
    ensures
        trim_end(s) == trim_end(s.take(k)),
    decreases s.len() - k,
{
    if k < s.len() {
        assert(is_ws(s.last()));
        let t = s.drop_last();
        assert forall|j: int| k <= j < t.len() implies is_ws(#[trigger] t[j]) by {
            assert(t[j] == s[j]);
        }
        lemma_trim_end_take(t, k);
        assert(t.take(k) =~= s.take(k));
    } else {
        assert(s.take(k) =~= s);
    }
}

/// Removes leading and trailing whitespace (`str::trim`).
pub fn trim_chars(s: &[char]) -> (v: Vec<char>)
    ensures
        v@ == trim(s@),
{
    let mut a: usize = 0;
    while a < s.len() && is_whitespace(s[a])
        invariant
            a <= s@.len(),
            forall|j: int| 0 <= j < a ==> is_ws(#[trigger] s@[j]),
        decreases s.len() - a,
    {
        a += 1;
    }
    proof {
        lemma_trim_start_skip(s@, a as int);
        assert(a < s@.len() ==> !is_ws(s@.skip(a as int)[0]));
    }
    let mut b: usize = s.len();
    while b > a && is_whitespace(s[b - 1])
        invariant
            a <= b <= s@.len(),
            forall|j: int| b <= j < s@.len() ==> is_ws(#[trigger] s@[j]),
        decreases b,
    {
        b -= 1;
    }
    let ghost u = s@.skip(a as int);
    proof {
        assert(trim_start(s@) == u);
        assert forall|j: int| (b - a) <= j < u.len() implies is_ws(#[trigger] u[j]) by {
            assert(u[j] == s@[j + a]);
        }
        lemma_trim_end_take(u, (b - a) as int);
        assert(u.take((b - a) as int) =~= s@.subrange(a as int, b as int));
        if b > a {
            assert(!is_ws(s@[b - 1]));
        }
    }
    slice_chars(s, a, b)
}

/// The first occurrence of `c` at or after `j` is at `k` (or there is none before `k == len`).
pub proof fn lemma_find_from_is(t: Seq<char>, c: char, j: int, k: int)
    requires
        0 <= j <= k <= t.len(),
        forall|m: int| j <= m < k ==> t[m] != c,
        k < t.len() ==> t[k] == c,
    ensures
        find_from(t, c, j) == k,
    decreases k - j,
{
    if j < k {
        lemma_find_from_is(t, c, j + 1, k);
    }
}

/// Splits into lines (`str::lines`).
pub fn split_lines(s: &[char]) -> (v: Vec<Vec<char>>)
    ensures
        v.deep_view() == lines(s@),
{
    let mut out: Vec<Vec<char>> = Vec::new();
    let mut start: usize = 0;
    let mut i: usize = 0;
    proof {
        assert(s@.skip(0) =~= s@);
    }
    while i < s.len()
        invariant
            start <= i <= s@.len(),
            forall|m: int| start <= m < i ==> s@[m] != '\n',
            lines(s@) =~= out.deep_view() + lines(s@.skip(start as int)),
        decreases s.len() - i,
    {
        if s[i] == '\n' {
            let mut line = slice_chars(s, start, i);
            if line.len() > 0 && line[line.len() - 1] == '\r' {
                line.pop();
            }
            proof {
                let t = s@.skip(start as int);
                assert forall|m: int| 0 <= m < i - start implies t[m] != '\n' by {
                    assert(t[m] == s@[m + start]);
                }
                lemma_find_from_is(t, '\n', 0, (i - start) as int);
                assert(t.take((i - start) as int) =~= s@.subrange(start as int, i as int));
                assert(t.skip((i - start) + 1) =~= s@.skip(i + 1));
                assert(line@ == strip_cr(s@.subrange(start as int, i as int)));
            }
            let ghost old_out = out.deep_view();
            proof {
                assert(line.deep_view() =~= line@);
            }
            out.push(line);
            proof {
                assert(out.deep_view() =~= old_out.push(line@));
            }
            start = i + 1;
        }
        i += 1;
    }
    if start < s.len() {
        let last = slice_chars(s, start, s.len());
        proof {
            let t = s@.skip(start as int);
            assert forall|m: int| 0 <= m < t.len() implies t[m] != '\n' by {
                assert(t[m] == s@[m + start]);
            }
            lemma_find_from_is(t, '\n', 0, t.len() as int);
            assert(last@ =~= t);
        }
        let ghost old_out = out.deep_view();
        proof {
            assert(last.deep_view() =~= last@);
        }
        out.push(last);
        proof {
            assert(out.deep_view() =~= old_out.push(last@));
        }
    } else {
        proof {
            assert(s@.skip(start as int) =~= Seq::<char>::empty());
        }
    }
    out
}

/// Replaces every non-overlapping occurrence of a non-empty `pat` by `rep`
/// (`str::replace`).
pub fn replace_chars(s: &[char], pat: &[char], rep: &[char]) -> (v: Vec<char>)
    requires
        pat@.len() > 0,
    ensures
        v@ == replace_all(s@, pat@, rep@),
{
    let mut out: Vec<char> = Vec::new();
    let mut i: usize = 0;
    proof {
        assert(s@.skip(0) =~= s@);
    }
    while i < s.len()
        invariant
            pat@.len() > 0,
            i <= s@.len(),
            replace_all(s@, pat@, rep@) =~= out@ + replace_all(s@.skip(i as int), pat@, rep@),
        decreases s.len() - i,
    {
        let ghost t = s@.skip(i as int);
        if matches_at(s, i, pat) {
            push_all(&mut out, rep);
            proof {
                assert(t.skip(pat@.len() as int) =~= s@.skip(i + pat@.len()));
            }
            i += pat.len();
        } else {
            out.push(s[i]);
            proof {
                assert(t.drop_first() =~= s@.skip(i + 1));
                assert(t[0] == s@[i as int]);
            }
            i += 1;
        }
    }
    proof {
        assert(s@.skip(i as int) =~= Seq::<char>::empty());
    }
    out
}

/// `str::replace` on string slices with a non-empty pattern.
pub fn replace_str(s: &str, pat: &str, rep: &str) -> (r: String)
    requires
        pat@.len() > 0,
    ensures
        r@ == replace_all(s@, pat@, rep@),
{
    let sc = to_chars(s);
    let pc = to_chars(pat);
    let rc = to_chars(rep);
    let v = replace_chars(&sc, &pc, &rc);
    from_chars(&v)
}

/// Splits at runs of whitespace (`str::split_whitespace`).
pub fn split_whitespace_chars(s: &[char]) -> (v: Vec<Vec<char>>)
    ensures
        v.deep_view() == split_ws(s@),
{
    let mut out: Vec<Vec<char>> = Vec::new();
    let mut i: usize = 0;
    proof {
        assert(s@.skip(0) =~= s@);
    }
    while i < s.len()
        invariant
            i <= s@.len(),
            split_ws(s@) =~= out.deep_view() + split_ws(s@.skip(i as int)),
        decreases s.len() - i,
    {
        let mut a = i;
        while a < s.len() && is_whitespace(s[a])
            invariant
                i <= a <= s@.len(),
                forall|j: int| i <= j < a ==> is_ws(#[trigger] s@[j]),
            decreases s.len() - a,
        {
            a += 1;
        }
        let ghost u = s@.skip(i as int);
        proof {
            assert forall|j: int| 0 <= j < a - i implies is_ws(#[trigger] u[j]) by {
                assert(u[j] == s@[j + i]);
            }
            lemma_trim_start_skip(u, (a - i) as int);
            assert(u.skip((a - i) as int) =~= s@.skip(a as int));
            lemma_trim_start_shape(u);
        }
        if a == s.len() {
            proof {
                assert(s@.skip(a as int) =~= Seq::<char>::empty());
                assert(trim_start(s@.skip(a as int)) =~= Seq::<char>::empty());
                assert(split_ws(u) =~= Seq::<Seq<char>>::empty());
            }
            i = a;
        } else {
            let mut b = a;
            while b < s.len() && !is_whitespace(s[b])
                invariant
                    a <= b <= s@.len(),
                    forall|j: int| a <= j < b ==> !is_ws(#[trigger] s@[j]),
                decreases s.len() - b,
            {
                b += 1;
            }
            let word = slice_chars(s, a, b);
            proof {
                let t = s@.skip(a as int);
                assert(!is_ws(t[0]));
                assert(t[0] == s@[a as int]);
                assert(trim_start(s@.skip(a as int)) == t) by {
                    assert(t.len() > 0 && !is_ws(t[0]));
                }
                assert(trim_start(u) == t);
                assert forall|m: int| 0 <= m < b - a implies !is_ws(t[m]) by {
                    assert(t[m] == s@[m + a]);
                }
                if b < s@.len() {
                    assert(t[b - a] == s@[b as int]);
                }
                lemma_find_ws_from_is(t, 0, (b - a) as int);
                assert(t.take((b - a) as int) =~= word@);
                assert(t.skip((b - a) as int) =~= s@.skip(b as int));
                assert(split_ws(u) =~= seq![word@] + split_ws(s@.skip(b as int)));
                assert(word.deep_view() =~= word@);
            }
            let ghost old_out = out.deep_view();
            out.push(word);
            proof {
                assert(out.deep_view() =~= old_out.push(word@));
            }
            i = b;
        }
    }
    out
}

/// Joins the parts with `sep` in between.
pub fn join_chars(parts: &Vec<Vec<char>>, sep: &[char]) -> (v: Vec<char>)
    ensures
        v@ == join(parts.deep_view(), sep@),
{
    let mut out: Vec<char> = Vec::new();
    let mut i: usize = 0;
    while i < parts.len()
        invariant
            i <= parts@.len(),
            out@ == join(parts.deep_view().take(i as int), sep@),
        decreases parts.len() - i,
    {
        let ghost pv = parts.deep_view();
        proof {
            assert(parts[i as int].deep_view() =~= parts[i as int]@);
            assert(pv.take(i + 1).drop_last() =~= pv.take(i as int));
            assert(pv.take(i + 1).last() == pv[i as int]);
        }
        if i > 0 {
            push_all(&mut out, sep);
        }
        push_all(&mut out, &parts[i]);
        proof {
            if i == 0 {
                assert(pv.take(1) =~= seq![pv[0]]);
                assert(out@ =~= pv[0]);
            }
        }
        i += 1;
    }
    proof {
        assert(parts.deep_view().take(parts@.len() as int) =~= parts.deep_view());
    }
    out
}

/// The decimal representation of `n` (`usize::to_string`).
pub fn decimal_chars(n: usize) -> (v: Vec<char>)
    ensures
        v@ == decimal(n as nat),
    decreases n,
{
    if n < 10 {
        let c = ((n as u8) + 48) as char;
        let mut v: Vec<char> = Vec::new();
        v.push(c);
        assert(v@ =~= seq![digit(n as nat)]);
        v
    } else {
        let mut v = decimal_chars(n / 10);
        let d = ((n % 10) as u8 + 48) as char;
        v.push(d);
        v
    }
}

/// A line made of a key and a value.
pub fn key_value(key: &str, value: &str) -> (v: Vec<char>)
    ensures
        v@ == key@ + value@,
{
    let mut v = to_chars(key);
    push_str(&mut v, value);
    v
}

/// Writes each line followed by a newline.
pub fn terminated_chars(ls: &Vec<Vec<char>>) -> (v: Vec<char>)
    ensures
        v@ == terminated(ls.deep_view()),
{
    let mut out: Vec<char> = Vec::new();
    let mut i: usize = 0;
    while i < ls.len()
        invariant
            i <= ls@.len(),
            out@ == terminated(ls.deep_view().take(i as int)),
        decreases ls.len() - i,
    {
        let ghost pv = ls.deep_view();
        proof {
            assert(ls[i as int].deep_view() =~= ls[i as int]@);
            assert(pv.take(i + 1) =~= pv.take(i as int).push(pv[i as int]));
            lemma_terminated_push(pv.take(i as int), pv[i as int]);
        }
        push_all(&mut out, &ls[i]);
        out.push('\n');
        proof {
            assert(out@ =~= terminated(pv.take(i as int)) + pv[i as int] + seq!['\n']);
        }
        i += 1;
    }
    proof {
        assert(ls.deep_view().take(ls@.len() as int) =~= ls.deep_view());
    }
    out
}

/// Joins a directory and a relative name (`Path::join` for a relative name).
pub fn join_path(base: &str, name: &str) -> (r: String)
    ensures
        r@ == path_join(base@, name@),
{
    let mut v = to_chars(base);
    if v.len() > 0 && v[v.len() - 1] != '/' {
        v.push('/');
    }
    push_str(&mut v, name);
    from_chars(&v)
}

/// The lines of a text that ends with a newline, followed by more text, are
/// the lines of the one followed by the lines of the other.
pub(crate) proof fn lemma_lines_append(a: Seq<char>, b: Seq<char>)
    requires
        a.len() == 0 || a.last() == '\n',
    ensures
        lines(a + b) == lines(a) + lines(b),
    decreases a.len(),
{
    if a.len() == 0 {
        assert(a + b =~= b);
        assert(lines(a) + lines(b) =~= lines(b));
    } else {
        let k = find_from(a, '\n', 0);
        lemma_find_from(a, '\n', 0);
        assert(k < a.len());
        let ab = a + b;
        assert forall|m: int| 0 <= m < k implies ab[m] != '\n' by {
            assert(ab[m] == a[m]);
        }
        lemma_find_from_is(ab, '\n', 0, k);
        let rest = a.skip(k + 1);
        if rest.len() > 0 {
            assert(rest.last() == a.last());
        }
        lemma_lines_append(rest, b);
        assert(ab.take(k) =~= a.take(k));
        assert(ab.skip(k + 1) =~= rest + b);
        assert(lines(ab) =~= seq![strip_cr(a.take(k))] + (lines(rest) + lines(b)));
        assert(lines(a) =~= seq![strip_cr(a.take(k))] + lines(rest));
        assert(lines(ab) =~= lines(a) + lines(b));
    }
}

/// Ending a text that has an unterminated last line with a newline keeps its
/// lines, but for a carriage return that the last line then loses.
pub(crate) proof fn lemma_lines_newline(c: Seq<char>)
    requires
        c.len() > 0,
        c.last() != '\n',
    ensures
        lines(c + seq!['\n']).len() == lines(c).len(),
        lines(c).len() > 0,
        forall|i: int| 0 <= i < lines(c).len() - 1 ==> #[trigger] lines(c + seq!['\n'])[i] == lines(c)[i],
        lines(c + seq!['\n'])[lines(c).len() - 1] == strip_cr(lines(c)[lines(c).len() - 1]),
    decreases c.len(),
{
    let cn = c + seq!['\n'];
    let k = find_from(c, '\n', 0);
    lemma_find_from(c, '\n', 0);
    assert forall|m: int| 0 <= m < k implies cn[m] != '\n' by {
        assert(cn[m] == c[m]);
    }
    if k >= c.len() {
        lemma_find_from_is(cn, '\n', 0, c.len() as int);
        assert(cn.take(c.len() as int) =~= c);
        assert(cn.skip(c.len() as int + 1) =~= Seq::<char>::empty());
        assert(lines(Seq::<char>::empty()) =~= Seq::<Seq<char>>::empty());
        assert(cn.len() > 0 && find_from(cn, '\n', 0) < cn.len());
        assert(lines(cn) == seq![strip_cr(cn.take(c.len() as int))] + lines(cn.skip(c.len() as int + 1)));
        assert(lines(cn) =~= seq![strip_cr(c)]);
        assert(lines(c) =~= seq![c]);
    } else {
        lemma_find_from_is(cn, '\n', 0, k);
        let rest = c.skip(k + 1);
        assert(rest.len() > 0) by {
            if rest.len() == 0 {
                assert(k == c.len() - 1);
            }
        }
        assert(rest.last() == c.last());
        lemma_lines_newline(rest);
        assert(cn.take(k) =~= c.take(k));
        assert(cn.skip(k + 1) =~= rest + seq!['\n']);
        let head = strip_cr(c.take(k));
        assert(lines(cn) =~= seq![head] + lines(rest + seq!['\n']));
        assert(lines(c) =~= seq![head] + lines(rest));
        assert forall|i: int| 0 <= i < lines(c).len() - 1 implies #[trigger] lines(cn)[i] == lines(c)[i] by {
            if i > 0 {
                assert(lines(cn)[i] == lines(rest + seq!['\n'])[i - 1]);
                assert(lines(c)[i] == lines(rest)[i - 1]);
            }
        }
    }
}

proof fn lemma_trim_start_push(x: Seq<char>, c: char)
    requires
        is_ws(c),
    ensures
        trim_start(x.push(c)) == (if trim_start(x).len() > 0 {
            trim_start(x).push(c)
        } else {
            Seq::<char>::empty()
        }),
    decreases x.len(),
{
    if x.len() == 0 {
        assert(x.push(c).drop_first() =~= Seq::<char>::empty());
        assert(trim_start(x.push(c)) == trim_start(Seq::<char>::empty()));
    } else if is_ws(x[0]) {
        assert(x.push(c).drop_first() =~= x.drop_first().push(c));
        lemma_trim_start_push(x.drop_first(), c);
    }
}

/// Trimming ignores one more whitespace character at the end.
pub(crate) proof fn lemma_trim_push_ws(x: Seq<char>, c: char)
    requires
        is_ws(c),
    ensures
        trim(x.push(c)) == trim(x),
{
    lemma_trim_start_push(x, c);
    let t = trim_start(x);
    if t.len() > 0 {
        assert(t.push(c).drop_last() =~= t);
    } else {
        assert(trim_end(Seq::<char>::empty()) == Seq::<char>::empty());
    }
}

/// Replacing works on each side of a character the pattern does not hold.
pub(crate) proof fn lemma_replace_split(x: Seq<char>, ch: char, y: Seq<char>, p: Seq<char>, r: Seq<char>)
    requires
        p.len() > 0,
        !has_char(p, ch),
    ensures
        replace_all(x + seq![ch] + y, p, r) == replace_all(x, p, r) + seq![ch] + replace_all(y, p, r),
    decreases x.len(),
{
    let s = x + seq![ch] + y;
    if x.len() == 0 {
        assert(s =~= seq![ch] + y);
        assert(!starts_with(s, p)) by {
            if starts_with(s, p) {
                assert(s.take(p.len() as int)[0] == p[0]);
            }
        }
        assert(s.drop_first() =~= y);
        assert(replace_all(s, p, r) == seq![s[0]] + replace_all(s.drop_first(), p, r));
        assert(replace_all(x, p, r) =~= x);
        assert(replace_all(s, p, r) =~= replace_all(x, p, r) + seq![ch] + replace_all(y, p, r));
    } else if starts_with(x, p) {
        assert(s.take(p.len() as int) =~= x.take(p.len() as int));
        assert(starts_with(s, p));
        lemma_replace_split(x.skip(p.len() as int), ch, y, p, r);
        assert(s.skip(p.len() as int) =~= x.skip(p.len() as int) + seq![ch] + y);
        assert(replace_all(s, p, r) == r + replace_all(s.skip(p.len() as int), p, r));
        assert(replace_all(x, p, r) == r + replace_all(x.skip(p.len() as int), p, r));
        assert(replace_all(s, p, r) =~= replace_all(x, p, r) + seq![ch] + replace_all(y, p, r));
    } else {
        assert(!starts_with(s, p)) by {
            if starts_with(s, p) {
                if p.len() <= x.len() {
                    assert(x.take(p.len() as int) =~= s.take(p.len() as int));
                } else {
                    assert(s.take(p.len() as int)[x.len() as int] == ch);
                    assert(p[x.len() as int] == ch);
                }
            }
        }
        lemma_replace_split(x.drop_first(), ch, y, p, r);
        assert(s.drop_first() =~= x.drop_first() + seq![ch] + y);
        assert(s[0] == x[0]);
        assert(replace_all(s, p, r) == seq![s[0]] + replace_all(s.drop_first(), p, r));
        assert(replace_all(x, p, r) == seq![x[0]] + replace_all(x.drop_first(), p, r));
        assert(replace_all(s, p, r) =~= replace_all(x, p, r) + seq![ch] + replace_all(y, p, r));
    }
}

/// Replacing brings in no character that neither the text nor the
/// replacement holds, and leaves a non-empty text non-empty.
pub(crate) proof fn lemma_replace_no_char(s: Seq<char>, p: Seq<char>, r: Seq<char>, ch: char)
    requires
        !has_char(s, ch),
        !has_char(r, ch),
        r.len() > 0,
    ensures
        !has_char(replace_all(s, p, r), ch),
        s.len() > 0 ==> replace_all(s, p, r).len() > 0,
    decreases s.len(),
{
    if s.len() > 0 && p.len() > 0 {
        let q = replace_all(s, p, r);
        if starts_with(s, p) {
            let t = s.skip(p.len() as int);
            assert forall|i: int| 0 <= i < t.len() implies t[i] != ch by {
                assert(t[i] == s[i + p.len()]);
            }
            lemma_replace_no_char(t, p, r, ch);
            let rt = replace_all(t, p, r);
            assert forall|i: int| 0 <= i < q.len() implies q[i] != ch by {
                if i < r.len() {
                    assert(q[i] == r[i]);
                } else {
                    assert(q[i] == rt[i - r.len()]);
                }
            }
        } else {
            let t = s.drop_first();
            assert forall|i: int| 0 <= i < t.len() implies t[i] != ch by {
                assert(t[i] == s[i + 1]);
            }
            lemma_replace_no_char(t, p, r, ch);
            let rt = replace_all(t, p, r);
            assert forall|i: int| 0 <= i < q.len() implies q[i] != ch by {
                if i > 0 {
                    assert(q[i] == rt[i - 1]);
                }
            }
        }
    }
}

/// Every line has no newline in it.
pub proof fn lemma_lines_no_newline(s: Seq<char>)
    ensures
        forall|i: int| 0 <= i < lines(s).len() ==> !has_char(#[trigger] lines(s)[i], '\n'),
    decreases s.len(),
{
    if s.len() > 0 {
        let k = find_from(s, '\n', 0);
        lemma_find_from(s, '\n', 0);
        if k < s.len() {
            lemma_lines_no_newline(s.skip(k + 1));
            let l = strip_cr(s.take(k));
            assert forall|j: int| 0 <= j < l.len() implies l[j] != '\n' by {
                assert(l[j] == s[j]);
            }
            let ls = lines(s);
            assert forall|i: int| 0 <= i < ls.len() implies !has_char(#[trigger] ls[i], '\n') by {
                if i > 0 {
                    assert(ls[i] == lines(s.skip(k + 1))[i - 1]);
                }
            }
        }
    }
}

/// Trimming keeps the characters of a middle stretch, so it adds no newline,
/// and its result is trimmed.
pub proof fn lemma_trim_clean(s: Seq<char>)
    ensures
        !has_char(s, '\n') ==> !has_char(trim(s), '\n'),
        is_trimmed(trim(s)),
{
    lemma_trim_start_sub(s);
    lemma_trim_end_sub(trim_start(s));
    lemma_trim_start_shape(s);
    lemma_trim_end_shape(trim_start(s));
    let t = trim_start(s);
    let u = trim_end(t);
    if u.len() > 0 {
        assert(u[0] == t[0]);
    }
}

pub(crate) proof fn lemma_trim_start_sub(s: Seq<char>)
    ensures
        exists|k: int| 0 <= k <= s.len() && trim_start(s) == s.skip(k),
    decreases s.len(),
{
    if s.len() > 0 && is_ws(s[0]) {
        lemma_trim_start_sub(s.drop_first());
        let k = choose|k: int| 0 <= k <= s.drop_first().len() && trim_start(s.drop_first()) == s.drop_first().skip(k);
        assert(s.drop_first().skip(k) =~= s.skip(k + 1));
    } else {
        assert(s.skip(0) =~= s);
    }
}

pub(crate) proof fn lemma_trim_end_sub(s: Seq<char>)
    ensures
        exists|k: int| 0 <= k <= s.len() && trim_end(s) == s.take(k),
    decreases s.len(),
{
    if s.len() > 0 && is_ws(s.last()) {
        lemma_trim_end_sub(s.drop_last());
        let k = choose|k: int| 0 <= k <= s.drop_last().len() && trim_end(s.drop_last()) == s.drop_last().take(k);
        assert(s.drop_last().take(k) =~= s.take(k));
    } else {
        assert(s.take(s.len() as int) =~= s);
    }
}

proof fn lemma_trim_end_shape(s: Seq<char>)
    ensures
        trim_end(s).len() > 0 ==> !is_ws(trim_end(s).last()),
    decreases s.len(),
{
    if s.len() > 0 && is_ws(s.last()) {
        lemma_trim_end_shape(s.drop_last());
    }
}

/// `str::trim` on a string slice.
pub fn trim_str(s: &str) -> (r: String)
    ensures
        r@ == trim(s@),
{
    let c = to_chars(s);
    let t = trim_chars(&c);
    from_chars(&t)
}

} // verus!

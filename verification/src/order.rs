//! The order of strings (`str`'s `Ord`: lexicographic by character), and
//! sorting and deduplicating vectors of strings in that order.
use vstd::prelude::*;
use crate::text::to_chars;

verus! {

broadcast use vstd::seq_lib::group_to_multiset_ensures;

/// The string values of a vector of strings.
pub open spec fn strings(v: Seq<String>) -> Seq<Seq<char>> {
    v.map_values(|s: String| s@)
}

/// Strict lexicographic order on character sequences: a proper prefix comes
/// first, otherwise the first differing character decides.
pub open spec fn lex_lt(a: Seq<char>, b: Seq<char>) -> bool
    decreases a.len(),
{
    if a.len() == 0 {
        b.len() > 0
    } else if b.len() == 0 {
        false
    } else if a[0] != b[0] {
        a[0] < b[0]
    } else {
        lex_lt(a.drop_first(), b.drop_first())
    }
}

/// `a` comes no later than `b`.
pub open spec fn lex_le(a: Seq<char>, b: Seq<char>) -> bool {
    a == b || lex_lt(a, b)
}

/// Every element comes no later than the ones after it.
pub open spec fn sorted(s: Seq<Seq<char>>) -> bool {
    forall|i: int, j: int| 0 <= i < j < s.len() ==> lex_le(#[trigger] s[i], #[trigger] s[j])
}

/// Every element comes strictly before the ones after it (sorted, no repeats).
pub open spec fn strictly_sorted(s: Seq<Seq<char>>) -> bool {
    forall|i: int, j: int| 0 <= i < j < s.len() ==> lex_lt(#[trigger] s[i], #[trigger] s[j])
}

/// No sequence comes before itself.
pub proof fn lemma_lex_irreflexive(a: Seq<char>)
    ensures
        !lex_lt(a, a),
    decreases a.len(),
{
    if a.len() > 0 {
        lemma_lex_irreflexive(a.drop_first());
    }
}

/// The order is transitive.
pub proof fn lemma_lex_transitive(a: Seq<char>, b: Seq<char>, c: Seq<char>)
    requires
        lex_lt(a, b),
        lex_lt(b, c),
    ensures
        lex_lt(a, c),
    decreases a.len(),
{
    if a.len() > 0 && b.len() > 0 && c.len() > 0 && a[0] == b[0] && b[0] == c[0] {
        lemma_lex_transitive(a.drop_first(), b.drop_first(), c.drop_first());
    }
}

/// Of two different sequences one comes before the other.
pub proof fn lemma_lex_total(a: Seq<char>, b: Seq<char>)
    ensures
        a == b || lex_lt(a, b) || lex_lt(b, a),
    decreases a.len(),
{
    if a.len() > 0 && b.len() > 0 && a[0] == b[0] {
        lemma_lex_total(a.drop_first(), b.drop_first());
        if a.drop_first() == b.drop_first() {
            assert(a =~= seq![a[0]] + a.drop_first());
            assert(b =~= seq![b[0]] + b.drop_first());
        }
    } else if a.len() == 0 && b.len() == 0 {
        assert(a =~= b);
    }
}

/// The order is asymmetric.
pub proof fn lemma_lex_asymmetric(a: Seq<char>, b: Seq<char>)
    requires
        lex_lt(a, b),
    ensures
        !lex_lt(b, a),
{
    if lex_lt(b, a) {
        lemma_lex_transitive(a, b, a);
        lemma_lex_irreflexive(a);
    }
}

/// At or before, then strictly before, is strictly before.
pub proof fn lemma_lex_le_lt(a: Seq<char>, b: Seq<char>, c: Seq<char>)
    requires
        lex_le(a, b),
        lex_lt(b, c),
    ensures
        lex_lt(a, c),
{
    if a != b {
        lemma_lex_transitive(a, b, c);
    }
}

/// Strictly before, then at or before, is strictly before.
pub proof fn lemma_lex_lt_le(a: Seq<char>, b: Seq<char>, c: Seq<char>)
    requires
        lex_lt(a, b),
        lex_le(b, c),
    ensures
        lex_lt(a, c),
{
    if b != c {
        lemma_lex_transitive(a, b, c);
    }
}

proof fn lemma_lex_skip(a: Seq<char>, b: Seq<char>, i: int)
    requires
        0 <= i <= a.len(),
        i <= b.len(),
        a.take(i) == b.take(i),
    ensures
        lex_lt(a, b) == lex_lt(a.skip(i), b.skip(i)),
    decreases i,
{
    if i > 0 {
        assert(a[0] == a.take(i)[0]);
        assert(b[0] == b.take(i)[0]);
        assert(a.drop_first().take(i - 1) =~= a.take(i).drop_first());
        assert(b.drop_first().take(i - 1) =~= b.take(i).drop_first());
        lemma_lex_skip(a.drop_first(), b.drop_first(), i - 1);
        assert(a.drop_first().skip(i - 1) =~= a.skip(i));
        assert(b.drop_first().skip(i - 1) =~= b.skip(i));
    } else {
        assert(a.skip(0) =~= a);
        assert(b.skip(0) =~= b);
    }
}

/// Whether `a` comes strictly before `b`.
pub fn less_chars(a: &[char], b: &[char]) -> (r: bool)
    ensures
        r == lex_lt(a@, b@),
{
    let mut i: usize = 0;
    while i < a.len() && i < b.len()
        invariant
            i <= a@.len(),
            i <= b@.len(),
            a@.take(i as int) == b@.take(i as int),
        decreases a.len() - i,
    {
        if a[i] != b[i] {
            proof {
                lemma_lex_skip(a@, b@, i as int);
                assert(a@.skip(i as int)[0] == a@[i as int]);
                assert(b@.skip(i as int)[0] == b@[i as int]);
            }
            return a[i] < b[i];
        }
        proof {
            assert(a@.take(i + 1) =~= a@.take(i as int).push(a@[i as int]));
            assert(b@.take(i + 1) =~= b@.take(i as int).push(b@[i as int]));
        }
        i += 1;
    }
    proof {
        lemma_lex_skip(a@, b@, i as int);
    }
    i == a.len() && i < b.len()
}

/// A copy of a vector of strings.
pub fn clone_strings(v: &Vec<String>) -> (r: Vec<String>)
    ensures
        strings(r@) == strings(v@),
{
    let mut r: Vec<String> = Vec::new();
    let mut i: usize = 0;
    while i < v.len()
        invariant
            i <= v@.len(),
            strings(r@) == strings(v@.take(i as int)),
        decreases v.len() - i,
    {
        let ghost before = r@;
        r.push(v[i].clone());
        proof {
            assert(strings(r@) =~= strings(before).push(v@[i as int]@));
            assert(v@.take(i + 1) =~= v@.take(i as int).push(v@[i as int]));
            assert(strings(v@.take(i + 1)) =~= strings(v@.take(i as int)).push(v@[i as int]@));
        }
        i += 1;
    }
    assert(v@.take(v@.len() as int) =~= v@);
    r
}

/// The strings of `v` in ascending order (`slice::sort` on strings): the
/// result is sorted and holds the same strings, each as often.
pub fn sort_strings(v: Vec<String>) -> (r: Vec<String>)
    ensures
        sorted(strings(r@)),
        strings(r@).to_multiset() == strings(v@).to_multiset(),
{
    let mut r: Vec<String> = Vec::new();
    let mut keys: Vec<Vec<char>> = Vec::new();
    let mut i: usize = 0;
    while i < v.len()
        invariant
            i <= v@.len(),
            keys@.len() == r@.len(),
            forall|k: int| 0 <= k < r@.len() ==> #[trigger] keys@[k]@ == r@[k]@,
            sorted(strings(r@)),
            strings(r@).to_multiset() == strings(v@.take(i as int)).to_multiset(),
        decreases v.len() - i,
    {
        let x = v[i].clone();
        let kx = to_chars(x.as_str());
        let mut p: usize = 0;
        while p < r.len() && !less_chars(kx.as_slice(), keys[p].as_slice())
            invariant
                p <= r@.len(),
                keys@.len() == r@.len(),
                forall|k: int| 0 <= k < r@.len() ==> #[trigger] keys@[k]@ == r@[k]@,
                forall|k: int| 0 <= k < p ==> !lex_lt(kx@, #[trigger] strings(r@)[k]),
            decreases r.len() - p,
        {
            p += 1;
        }
        let ghost s = strings(r@);
        proof {
            assert forall|k: int| 0 <= k < p implies lex_le(#[trigger] s[k], kx@) by {
                lemma_lex_total(s[k], kx@);
            }
            if p < r@.len() {
                assert(lex_lt(kx@, s[p as int]));
            }
        }
        r.insert(p, x);
        keys.insert(p, kx);
        proof {
            let t = strings(r@);
            assert(t =~= s.insert(p as int, v@[i as int]@));
            assert forall|a: int, b: int| 0 <= a < b < t.len() implies lex_le(#[trigger] t[a], #[trigger] t[b]) by {
                if b < p {
                    assert(t[a] == s[a] && t[b] == s[b]);
                } else if b == p {
                    assert(t[a] == s[a]);
                } else if a < p {
                    assert(t[a] == s[a] && t[b] == s[b - 1]);
                    assert(lex_lt(kx@, s[p as int]));
                    if b - 1 > p {
                        assert(lex_le(s[p as int], s[b - 1]));
                    }
                    lemma_lex_lt_le(kx@, s[p as int], s[b - 1]);
                    lemma_lex_le_lt(s[a], kx@, s[b - 1]);
                } else if a == p {
                    assert(t[b] == s[b - 1]);
                    if b - 1 > p {
                        assert(lex_le(s[p as int], s[b - 1]));
                    }
                    lemma_lex_lt_le(kx@, s[p as int], s[b - 1]);
                } else {
                    assert(t[a] == s[a - 1] && t[b] == s[b - 1]);
                }
            }
            assert(v@.take(i + 1) =~= v@.take(i as int).push(v@[i as int]));
            assert(strings(v@.take(i + 1)) =~= strings(v@.take(i as int)).push(v@[i as int]@));
        }
        i += 1;
    }
    assert(v@.take(v@.len() as int) =~= v@);
    r
}

/// `v` with runs of equal strings reduced to one (`Vec::dedup`), for a
/// sorted `v`: the result is strictly sorted and holds the same strings.
pub fn dedup_sorted(v: Vec<String>) -> (r: Vec<String>)
    requires
        sorted(strings(v@)),
    ensures
        strictly_sorted(strings(r@)),
        forall|x: Seq<char>| strings(r@).contains(x) <==> strings(v@).contains(x),
{
    let ghost sv = strings(v@);
    let mut r: Vec<String> = Vec::new();
    let mut last: Vec<char> = Vec::new();
    let mut i: usize = 0;
    while i < v.len()
        invariant
            i <= v@.len(),
            sv == strings(v@),
            sorted(sv),
            strictly_sorted(strings(r@)),
            r@.len() > 0 ==> last@ == strings(r@).last(),
            r@.len() == 0 <==> i == 0,
            i > 0 ==> last@ == sv[i - 1],
            forall|x: Seq<char>| strings(r@).contains(x) <==> sv.take(i as int).contains(x),
        decreases v.len() - i,
    {
        let x = v[i].clone();
        let kx = to_chars(x.as_str());
        let ghost before = strings(r@);
        if i == 0 || !crate::text::eq_chars(kx.as_slice(), last.as_slice()) {
            proof {
                if i > 0 {
                    assert(lex_le(sv[i - 1], sv[i as int]));
                }
            }
            r.push(x);
            proof {
                let t = strings(r@);
                assert(t =~= before.push(sv[i as int]));
                assert forall|a: int, b: int| 0 <= a < b < t.len() implies lex_lt(#[trigger] t[a], #[trigger] t[b]) by {
                    if b == t.len() - 1 && a < b {
                        assert(before.contains(t[a]));
                        let j = choose|j: int| 0 <= j < i && #[trigger] sv.take(i as int)[j] == t[a];
                        assert(sv[j] == t[a]);
                        if j < i - 1 {
                            assert(lex_le(sv[j], sv[i - 1]));
                        }
                        lemma_lex_le_lt(sv[j], sv[i - 1], sv[i as int]);
                    }
                }
                assert forall|y: Seq<char>| t.contains(y) <==> sv.take(i + 1).contains(y) by {
                    assert(sv.take(i + 1) =~= sv.take(i as int).push(sv[i as int]));
                    if t.contains(y) {
                        let j = choose|j: int| 0 <= j < t.len() && #[trigger] t[j] == y;
                        if j < t.len() - 1 {
                            assert(before[j] == y);
                            assert(before.contains(y));
                            assert(sv.take(i as int).contains(y));
                            let k = choose|k: int| 0 <= k < i && #[trigger] sv.take(i as int)[k] == y;
                            assert(sv.take(i + 1)[k] == y);
                        } else {
                            assert(sv.take(i + 1)[i as int] == y);
                        }
                    }
                    if sv.take(i + 1).contains(y) {
                        let j = choose|j: int| 0 <= j < i + 1 && #[trigger] sv.take(i + 1)[j] == y;
                        if j < i {
                            assert(sv.take(i as int)[j] == y);
                            assert(sv.take(i as int).contains(y));
                            assert(before.contains(y));
                            let m = choose|m: int| 0 <= m < before.len() && #[trigger] before[m] == y;
                            assert(t[m] == y);
                        } else {
                            assert(t[t.len() - 1] == y);
                        }
                    }
                }
            }
            last = kx;
        } else {
            proof {
                assert(sv.take(i + 1) =~= sv.take(i as int).push(sv[i as int]));
                assert forall|y: Seq<char>| before.contains(y) <==> sv.take(i + 1).contains(y) by {
                    if sv.take(i + 1).contains(y) {
                        let j = choose|j: int| 0 <= j < i + 1 && #[trigger] sv.take(i + 1)[j] == y;
                        if j < i {
                            assert(sv.take(i as int)[j] == y);
                            assert(sv.take(i as int).contains(y));
                        } else {
                            assert(before[before.len() - 1] == y);
                        }
                    }
                    if before.contains(y) {
                        let j = choose|j: int| 0 <= j < i && #[trigger] sv.take(i as int)[j] == y;
                        assert(sv.take(i + 1)[j] == y);
                    }
                }
            }
        }
        i += 1;
    }
    assert(sv.take(v@.len() as int) =~= sv);
    r
}

} // verus!

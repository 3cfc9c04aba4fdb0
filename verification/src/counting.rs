//! Counting repeated snippets for the report's summary.
//!
//! A snippet that the service flags `k` times adds `k - 1` to the
//! "repeated occurrences" total; the total over all snippets equals the
//! number of matches whose snippet already appeared at an earlier match.

use vstd::prelude::*;

verus! {

/// The number of positions whose snippet already occurred earlier in the
/// sequence; this is the report's repeated-occurrence total.
pub open spec fn dup_count(s: Seq<Seq<char>>) -> nat
    decreases s.len(),
{
    if s.len() == 0 {
        0
    } else {
        dup_count(s.drop_last()) + (if s.drop_last().contains(s.last()) {
            1nat
        } else {
            0nat
        })
    }
}

/// How many positions of `s` hold exactly the value `v`.
pub open spec fn occurrences(s: Seq<Seq<char>>, v: Seq<char>) -> nat {
    s.filter(|x: Seq<char>| x == v).len()
}

/// `s` with every occurrence of `v` removed, order kept.
pub open spec fn without(s: Seq<Seq<char>>, v: Seq<char>) -> Seq<Seq<char>> {
    s.filter(|x: Seq<char>| x != v)
}

/// The views of a vector of owned snippet strings.
pub open spec fn views_of(snips: Seq<String>) -> Seq<Seq<char>> {
    snips.map_values(|s: String| s@)
}

proof fn lemma_occ_step(s: Seq<Seq<char>>, v: Seq<char>)
    requires
        s.len() > 0,
    ensures
        occurrences(s, v) == occurrences(s.drop_last(), v) + (if s.last() == v {
            1nat
        } else {
            0nat
        }),
{
    reveal(Seq::filter);
}

proof fn lemma_without_step(s: Seq<Seq<char>>, v: Seq<char>)
    requires
        s.len() > 0,
    ensures
        without(s, v) == (if s.last() != v {
            without(s.drop_last(), v).push(s.last())
        } else {
            without(s.drop_last(), v)
        }),
{
    reveal(Seq::filter);
}

proof fn lemma_zero_len(s: Seq<Seq<char>>, v: Seq<char>)
    requires
        s.len() == 0,
    ensures
        occurrences(s, v) == 0,
        without(s, v).len() == 0,
{
    reveal(Seq::filter);
}

proof fn lemma_contains_push(s: Seq<Seq<char>>, y: Seq<char>, x: Seq<char>)
    ensures
        s.push(y).contains(x) <==> (s.contains(x) || x == y),
{
    if s.contains(x) {
        let i = choose|i: int| 0 <= i < s.len() && s[i] == x;
        assert(s.push(y)[i] == x);
    }
    if x == y {
        assert(s.push(y)[s.len() as int] == x);
    }
    if s.push(y).contains(x) {
        let i = choose|i: int| 0 <= i < s.push(y).len() && s.push(y)[i] == x;
        if i < s.len() {
            assert(s[i] == x);
        }
    }
}

proof fn lemma_contains_split(s: Seq<Seq<char>>, x: Seq<char>)
    requires
        s.len() > 0,
    ensures
        s.contains(x) <==> (s.drop_last().contains(x) || s.last() == x),
{
    assert(s =~= s.drop_last().push(s.last()));
    lemma_contains_push(s.drop_last(), s.last(), x);
}

proof fn lemma_occ_contains(s: Seq<Seq<char>>, v: Seq<char>)
    ensures
        occurrences(s, v) >= 1 <==> s.contains(v),
    decreases s.len(),
{
    if s.len() == 0 {
        lemma_zero_len(s, v);
    } else {
        lemma_occ_contains(s.drop_last(), v);
        lemma_occ_step(s, v);
        lemma_contains_split(s, v);
    }
}

proof fn lemma_without_contains(s: Seq<Seq<char>>, v: Seq<char>, x: Seq<char>)
    requires
        x != v,
    ensures
        without(s, v).contains(x) <==> s.contains(x),
    decreases s.len(),
{
    if s.len() == 0 {
        lemma_zero_len(s, v);
        assert(!without(s, v).contains(x));
        assert(!s.contains(x));
    } else {
        let s0 = s.drop_last();
        let y = s.last();
        lemma_without_contains(s0, v, x);
        lemma_without_step(s, v);
        lemma_contains_split(s, x);
        if y != v {
            lemma_contains_push(without(s0, v), y, x);
        }
    }
}

proof fn lemma_dup_without(s: Seq<Seq<char>>, v: Seq<char>)
    ensures
        dup_count(s) == dup_count(without(s, v)) + (if occurrences(s, v) >= 1 {
            (occurrences(s, v) - 1) as nat
        } else {
            0nat
        }),
    decreases s.len(),
{
    if s.len() == 0 {
        lemma_zero_len(s, v);
        assert(dup_count(without(s, v)) == 0);
    } else {
        let s0 = s.drop_last();
        let x = s.last();
        lemma_dup_without(s0, v);
        lemma_occ_step(s, v);
        lemma_without_step(s, v);
        lemma_occ_contains(s0, v);
        if x == v {
            // the removed value's own occurrence: the duplicate it may form
            // with an earlier occurrence is exactly what dup_count records
            assert(without(s, v) == without(s0, v));
        } else {
            let w0 = without(s0, v);
            assert(without(s, v) == w0.push(x));
            assert(w0.push(x).drop_last() =~= w0);
            assert(w0.push(x).last() == x);
            assert(dup_count(w0.push(x)) == dup_count(w0) + (if w0.contains(x) {
                1nat
            } else {
                0nat
            }));
            lemma_without_contains(s0, v, x);
            lemma_contains_split(s, x);
        }
    }
}

/// A snippet value `v` that occurs `k >= 1` times in the snippet sequence
/// contributes exactly `k - 1` to the repeated-occurrence total: removing
/// every occurrence of `v` lowers the total by exactly `k - 1`.
pub proof fn lemma_repeated_contribution(s: Seq<Seq<char>>, v: Seq<char>)
    requires
        occurrences(s, v) >= 1,
    ensures
        dup_count(s) == dup_count(without(s, v)) + occurrences(s, v) - 1,
{
    lemma_dup_without(s, v);
}

/// Counts the snippets that already occurred earlier in the list, which is
/// the report's repeated-occurrence total.
pub fn count_duplicates(snips: &Vec<String>) -> (n: usize)
    ensures
        n as nat == dup_count(views_of(snips@)),
{
    let ghost g = views_of(snips@);
    let mut count: usize = 0;
    let mut i: usize = 0;
    while i < snips.len()
        invariant
            i <= snips@.len(),
            count <= i,
            g == views_of(snips@),
            count as nat == dup_count(g.take(i as int)),
        decreases snips@.len() - i,
    {
        let mut found = false;
        let mut j: usize = 0;
        while j < i
            invariant
                j <= i,
                i < snips@.len(),
                g == views_of(snips@),
                found <==> exists|k: int| 0 <= k < j && g[k] == g[i as int],
            decreases i - j,
        {
            if snips[j].eq(&snips[i]) {
                proof {
                    assert(g[j as int] == snips@[j as int]@);
                    assert(g[i as int] == snips@[i as int]@);
                }
                found = true;
            }
            j += 1;
        }
        proof {
            let t = g.take(i as int);
            let t1 = g.take(i + 1 as int);
            assert(t1.drop_last() =~= t);
            assert(t1.last() == g[i as int]);
            if found {
                let k = choose|k: int| 0 <= k < i && g[k] == g[i as int];
                assert(t[k] == g[i as int]);
                assert(t.contains(g[i as int]));
            } else {
                assert(forall|k: int| 0 <= k < i ==> g[k] != g[i as int]);
                assert(forall|k: int| 0 <= k < t.len() ==> t[k] == g[k]);
                assert(!t.contains(g[i as int]));
            }
            assert(dup_count(t1) == dup_count(t) + (if t.contains(t1.last()) {
                1nat
            } else {
                0nat
            }));
        }
        if found {
            count = count + 1;
        }
        i += 1;
    }
    proof {
        assert(g.take(snips@.len() as int) =~= g);
    }
    count
}

} // verus!

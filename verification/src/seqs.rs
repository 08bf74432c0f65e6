//! Facts about sequences that loops build up element by element.

use vstd::prelude::*;

verus! {

/// Filtering one more element.
pub proof fn filter_step<T>(s: Seq<T>, p: spec_fn(T) -> bool, i: int)
    requires
        0 <= i < s.len(),
    ensures
        s.subrange(0, i + 1).filter(p) == if p(s[i]) {
            s.subrange(0, i).filter(p).push(s[i])
        } else {
            s.subrange(0, i).filter(p)
        },
        s.subrange(0, i).filter(p).len() <= i,
{
    reveal(Seq::filter);
    assert(s.subrange(0, i + 1).drop_last() =~= s.subrange(0, i));
    filter_length(s.subrange(0, i), p);
}

/// Filtering never adds elements.
pub proof fn filter_length<T>(s: Seq<T>, p: spec_fn(T) -> bool)
    ensures
        s.filter(p).len() <= s.len(),
    decreases s.len(),
{
    reveal(Seq::filter);
    if s.len() > 0 {
        filter_length(s.drop_last(), p);
    }
}

/// The whole of a sequence is the sequence.
pub proof fn whole<T>(s: Seq<T>)
    ensures
        s.subrange(0, s.len() as int) == s,
{
    assert(s.subrange(0, s.len() as int) =~= s);
}

/// What filtering keeps passes the test and comes from the sequence.
pub proof fn filter_members<T>(s: Seq<T>, p: spec_fn(T) -> bool)
    ensures
        forall|i: int|
            0 <= i < s.filter(p).len() ==> p(#[trigger] s.filter(p)[i]) && s.contains(
                s.filter(p)[i],
            ),
        forall|i: int| 0 <= i < s.len() && p(#[trigger] s[i]) ==> s.filter(p).contains(s[i]),
    decreases s.len(),
{
    reveal(Seq::filter);
    if s.len() > 0 {
        let t = s.drop_last();
        let r = s.filter(p);
        filter_members(t, p);
        assert forall|i: int| 0 <= i < r.len() implies p(#[trigger] r[i]) && s.contains(r[i]) by {
            if i < t.filter(p).len() {
                assert(r[i] == t.filter(p)[i]);
                let k = choose|k: int| 0 <= k < t.len() && t[k] == r[i];
                assert(s[k] == r[i]);
            } else {
                assert(r[i] == s.last());
                assert(s[s.len() - 1] == r[i]);
            }
        }
        assert forall|i: int| 0 <= i < s.len() && p(#[trigger] s[i]) implies r.contains(s[i]) by {
            if i < t.len() {
                assert(t[i] == s[i]);
                assert(t.filter(p).contains(s[i]));
                let k = choose|k: int| 0 <= k < t.filter(p).len() && t.filter(p)[k] == s[i];
                assert(r[k] == s[i]);
            } else {
                assert(r[r.len() - 1] == s[i]);
            }
        }
    }
}

/// Filtering a sequence that passes throughout changes nothing.
pub proof fn filter_all<T>(s: Seq<T>, p: spec_fn(T) -> bool)
    requires
        forall|i: int| 0 <= i < s.len() ==> p(#[trigger] s[i]),
    ensures
        s.filter(p) == s,
    decreases s.len(),
{
    reveal(Seq::filter);
    if s.len() > 0 {
        let t = s.drop_last();
        assert forall|i: int| 0 <= i < t.len() implies p(#[trigger] t[i]) by {
            assert(t[i] == s[i]);
        }
        filter_all(t, p);
        assert(p(s[s.len() - 1]));
        assert(t.push(s.last()) =~= s);
    }
}

/// Filtering twice by the same test is filtering once.
pub proof fn filter_twice<T>(s: Seq<T>, p: spec_fn(T) -> bool)
    ensures
        s.filter(p).filter(p) == s.filter(p),
{
    filter_members(s, p);
    filter_all(s.filter(p), p);
}

/// The sum of `f` over a sequence.
pub open spec fn total<T>(s: Seq<T>, f: spec_fn(T) -> int) -> int
    decreases s.len(),
{
    if s.len() == 0 {
        0
    } else {
        total(s.drop_last(), f) + f(s.last())
    }
}

/// Adding up one more element.
pub proof fn total_step<T>(s: Seq<T>, f: spec_fn(T) -> int, i: int)
    requires
        0 <= i < s.len(),
    ensures
        total(s.subrange(0, i + 1), f) == total(s.subrange(0, i), f) + f(s[i]),
{
    assert(s.subrange(0, i + 1).drop_last() =~= s.subrange(0, i));
}

/// A sum of terms that are not negative is not negative and grows.
pub proof fn total_not_negative<T>(s: Seq<T>, f: spec_fn(T) -> int)
    requires
        forall|x: T| 0 <= #[trigger] f(x),
    ensures
        0 <= total(s, f),
    decreases s.len(),
{
    if s.len() > 0 {
        total_not_negative(s.drop_last(), f);
        assert(0 <= f(s.last()));
    }
}

/// A sum over two joined sequences is the sum of the sums.
pub proof fn total_concat<T>(a: Seq<T>, b: Seq<T>, f: spec_fn(T) -> int)
    ensures
        total(a + b, f) == total(a, f) + total(b, f),
    decreases b.len(),
{
    if b.len() == 0 {
        assert(a + b =~= a);
    } else {
        assert((a + b).drop_last() =~= a + b.drop_last());
        total_concat(a, b.drop_last(), f);
    }
}

/// The sum over one more element.
pub proof fn total_push<T>(a: Seq<T>, x: T, f: spec_fn(T) -> int)
    ensures
        total(a.push(x), f) == total(a, f) + f(x),
{
    assert(a.push(x).drop_last() =~= a);
}

/// Filtering two joined sequences.
pub proof fn filter_concat<T>(a: Seq<T>, b: Seq<T>, p: spec_fn(T) -> bool)
    ensures
        (a + b).filter(p) == a.filter(p) + b.filter(p),
    decreases b.len(),
{
    reveal(Seq::filter);
    if b.len() == 0 {
        assert(a + b =~= a);
        assert(a.filter(p) + b.filter(p) =~= a.filter(p));
    } else {
        assert((a + b).drop_last() =~= a + b.drop_last());
        filter_concat(a, b.drop_last(), p);
        assert((a + b).filter(p) =~= a.filter(p) + b.filter(p));
    }
}

/// How often an element occurs in a sequence.
pub open spec fn occurrences<T>(s: Seq<T>, x: T) -> nat
    decreases s.len(),
{
    if s.len() == 0 {
        0
    } else {
        occurrences(s.drop_last(), x) + if s.last() == x {
            1nat
        } else {
            0nat
        }
    }
}

/// Occurrences in two joined sequences add up.
pub proof fn occurrences_concat<T>(a: Seq<T>, b: Seq<T>, x: T)
    ensures
        occurrences(a + b, x) == occurrences(a, x) + occurrences(b, x),
    decreases b.len(),
{
    if b.len() == 0 {
        assert(a + b =~= a);
    } else {
        assert((a + b).drop_last() =~= a + b.drop_last());
        occurrences_concat(a, b.drop_last(), x);
    }
}

/// Filtering keeps every occurrence of what passes and drops all others.
pub proof fn occurrences_filter<T>(s: Seq<T>, p: spec_fn(T) -> bool, x: T)
    ensures
        occurrences(s.filter(p), x) == if p(x) {
            occurrences(s, x)
        } else {
            0
        },
    decreases s.len(),
{
    reveal(Seq::filter);
    if s.len() > 0 {
        let t = s.drop_last();
        occurrences_filter(t, p, x);
        if p(s.last()) {
            assert(t.filter(p).push(s.last()).drop_last() =~= t.filter(p));
        }
    }
}

/// What does not occur in a sequence is not one of its elements, and the other
/// way round.
pub proof fn occurrences_positive<T>(s: Seq<T>, x: T)
    ensures
        occurrences(s, x) > 0 <==> s.contains(x),
    decreases s.len(),
{
    if s.len() > 0 {
        let t = s.drop_last();
        occurrences_positive(t, x);
        if t.contains(x) {
            let k = choose|k: int| 0 <= k < t.len() && t[k] == x;
            assert(s[k] == x);
        }
        if s.contains(x) {
            let k = choose|k: int| 0 <= k < s.len() && s[k] == x;
            if k < t.len() {
                assert(t[k] == x);
            }
        }
        if s.last() == x {
            assert(s[s.len() - 1] == x);
        }
    }
}

/// Sums of terms that are equal throughout are equal.
pub proof fn total_same<T>(s: Seq<T>, f: spec_fn(T) -> int, g: spec_fn(T) -> int)
    requires
        forall|i: int| 0 <= i < s.len() ==> f(#[trigger] s[i]) == g(s[i]),
    ensures
        total(s, f) == total(s, g),
    decreases s.len(),
{
    if s.len() > 0 {
        let t = s.drop_last();
        assert forall|i: int| 0 <= i < t.len() implies f(#[trigger] t[i]) == g(t[i]) by {
            assert(t[i] == s[i]);
        }
        total_same(t, f, g);
        assert(f(s[s.len() - 1]) == g(s[s.len() - 1]));
    }
}

/// A sum is made up of its terms: nothing adds up to zero, and one more element
/// adds its own term.
pub proof fn totals_add_up<T>(s: Seq<T>, x: T, f: spec_fn(T) -> int)
    ensures
        total(Seq::<T>::empty(), f) == 0,
        total(s.push(x), f) == total(s, f) + f(x),
{
    total_push(s, x, f);
}

} // verus!

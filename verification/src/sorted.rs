//! Sorted lists without duplicates, and newest-first orders.

use vstd::prelude::*;

use crate::seqs::whole;
use crate::text::{
    same_text, text_before, text_less, text_less_irreflexive, text_less_total, text_less_transitive,
    texts,
};

verus! {

/// The first position, at or behind `i`, whose text does not come before `x`.
pub open spec fn rank_from(s: Seq<Seq<char>>, x: Seq<char>, i: int) -> int
    decreases s.len() - i,
{
    if i < 0 || i >= s.len() || !text_less(s[i], x) {
        i
    } else {
        rank_from(s, x, i + 1)
    }
}

/// A sorted list with one more text, unless it is there already.
pub open spec fn with_text(s: Seq<Seq<char>>, x: Seq<char>) -> Seq<Seq<char>> {
    let k = rank_from(s, x, 0);
    if k < s.len() && s[k] == x {
        s
    } else {
        s.insert(k, x)
    }
}

/// The given texts in order, each once.
pub open spec fn sorted_texts(v: Seq<Seq<char>>) -> Seq<Seq<char>>
    decreases v.len(),
{
    if v.len() == 0 {
        Seq::empty()
    } else {
        with_text(sorted_texts(v.drop_last()), v.last())
    }
}

/// Whether each text comes before the next.
pub open spec fn ascending(s: Seq<Seq<char>>) -> bool {
    forall|i: int, j: int| 0 <= i < j < s.len() ==> text_less(#[trigger] s[i], #[trigger] s[j])
}

/// What the rank of a text means in a sorted list.
pub proof fn rank_from_meaning(s: Seq<Seq<char>>, x: Seq<char>, i: int)
    requires
        0 <= i <= s.len(),
    ensures
        i <= rank_from(s, x, i) <= s.len(),
        forall|k: int| i <= k < rank_from(s, x, i) ==> text_less(#[trigger] s[k], x),
        rank_from(s, x, i) < s.len() ==> !text_less(s[rank_from(s, x, i)], x),
    decreases s.len() - i,
{
    if i < s.len() && text_less(s[i], x) {
        rank_from_meaning(s, x, i + 1);
    }
}

/// A sorted list stays sorted with one more text, and gains just that text.
pub proof fn with_text_sorted(s: Seq<Seq<char>>, x: Seq<char>)
    requires
        ascending(s),
    ensures
        ascending(with_text(s, x)),
        forall|y: Seq<char>| with_text(s, x).contains(y) <==> s.contains(y) || y == x,
{
    let k = rank_from(s, x, 0);
    rank_from_meaning(s, x, 0);
    if k < s.len() && s[k] == x {
        assert(s.contains(x));
    } else {
        let r = s.insert(k, x);
        if k < s.len() {
            text_less_total(s[k], x);
        }
        assert forall|i: int, j: int| 0 <= i < j < r.len() implies text_less(
            #[trigger] r[i],
            #[trigger] r[j],
        ) by {
            if j < k {
                assert(r[i] == s[i] && r[j] == s[j]);
            } else if j == k {
                assert(r[i] == s[i] && r[j] == x);
            } else if i < k {
                assert(r[i] == s[i] && r[j] == s[j - 1]);
            } else if i == k {
                assert(r[i] == x && r[j] == s[j - 1]);
                if j - 1 > k {
                    text_less_transitive(x, s[k], s[j - 1]);
                }
            } else {
                assert(r[i] == s[i - 1] && r[j] == s[j - 1]);
            }
        }
        assert forall|y: Seq<char>| r.contains(y) <==> s.contains(y) || y == x by {
            if s.contains(y) {
                let m = choose|m: int| 0 <= m < s.len() && s[m] == y;
                if m < k {
                    assert(r[m] == y);
                } else {
                    assert(r[m + 1] == y);
                }
            }
            if y == x {
                assert(r[k] == y);
            }
            if r.contains(y) {
                let m = choose|m: int| 0 <= m < r.len() && r[m] == y;
                if m < k {
                    assert(s[m] == y);
                } else if m > k {
                    assert(s[m - 1] == y);
                }
            }
        }
    }
}

/// The sorted list of some texts is in order and holds exactly those texts.
pub proof fn sorted_texts_meaning(v: Seq<Seq<char>>)
    ensures
        ascending(sorted_texts(v)),
        forall|y: Seq<char>|
            #![trigger sorted_texts(v).contains(y)]
            #![trigger v.contains(y)]
            sorted_texts(v).contains(y) <==> v.contains(y),
    decreases v.len(),
{
    if v.len() > 0 {
        let t = v.drop_last();
        sorted_texts_meaning(t);
        with_text_sorted(sorted_texts(t), v.last());
        assert forall|y: Seq<char>| v.contains(y) <==> t.contains(y) || y == v.last() by {
            if t.contains(y) {
                let m = choose|m: int| 0 <= m < t.len() && t[m] == y;
                assert(v[m] == y);
            }
            if y == v.last() {
                assert(v[v.len() - 1] == y);
            }
            if v.contains(y) {
                let m = choose|m: int| 0 <= m < v.len() && v[m] == y;
                if m < t.len() {
                    assert(t[m] == y);
                }
            }
        }
    }
}

/// Two sorted lists with the same texts are the same list.
pub proof fn ascending_unique(a: Seq<Seq<char>>, b: Seq<Seq<char>>)
    requires
        ascending(a),
        ascending(b),
        forall|y: Seq<char>|
            #![trigger a.contains(y)]
            #![trigger b.contains(y)]
            a.contains(y) <==> b.contains(y),
    ensures
        a == b,
    decreases a.len(),
{
    if a.len() == 0 {
        if b.len() > 0 {
            assert(b.contains(b[0]));
        }
        assert(a =~= b);
    } else if b.len() == 0 {
        assert(a.contains(a[0]));
    } else {
        let x = a.last();
        let y = b.last();
        assert(a.contains(x) && b.contains(y));
        let i = choose|i: int| 0 <= i < b.len() && b[i] == x;
        let j = choose|j: int| 0 <= j < a.len() && a[j] == y;
        if x != y {
            assert(text_less(b[i], b[b.len() - 1]));
            assert(text_less(a[j], a[a.len() - 1]));
            text_less_transitive(x, y, x);
            text_less_irreflexive(x);
        }
        let p = a.drop_last();
        let q = b.drop_last();
        assert forall|z: Seq<char>|
            #![trigger p.contains(z)]
            #![trigger q.contains(z)]
            p.contains(z) <==> q.contains(z) by {
            if p.contains(z) {
                let m = choose|m: int| 0 <= m < p.len() && p[m] == z;
                assert(a[m] == z);
                assert(text_less(a[m], a[a.len() - 1]));
                assert(b.contains(z));
                let n = choose|n: int| 0 <= n < b.len() && b[n] == z;
                text_less_irreflexive(x);
                assert(n < q.len());
                assert(q[n] == z);
            }
            if q.contains(z) {
                let m = choose|m: int| 0 <= m < q.len() && q[m] == z;
                assert(b[m] == z);
                assert(text_less(b[m], b[b.len() - 1]));
                assert(a.contains(z));
                let n = choose|n: int| 0 <= n < a.len() && a[n] == z;
                text_less_irreflexive(x);
                assert(n < p.len());
                assert(p[n] == z);
            }
        }
        ascending_unique(p, q);
        assert(a =~= p.push(x));
        assert(b =~= q.push(y));
    }
}

/// Inserts a text into a sorted list, unless it is there already.
pub fn insert_text(v: &mut Vec<String>, x: String)
    ensures
        texts(final(v)@) == with_text(texts(old(v)@), x@),
{
    let ghost before = v@;
    let mut k: usize = 0;
    while k < v.len() && text_before(v[k].as_str(), x.as_str())
        invariant
            k <= v@.len(),
            v@ == before,
            rank_from(texts(v@), x@, 0) == rank_from(texts(v@), x@, k as int),
        decreases v@.len() - k,
    {
        assert(texts(v@)[k as int] == v@[k as int]@);
        k += 1;
    }
    proof {
        if k < v@.len() {
            assert(texts(v@)[k as int] == v@[k as int]@);
        }
    }
    if k < v.len() && same_text(v[k].as_str(), x.as_str()) {
        return;
    }
    v.insert(k, x);
    assert(texts(v@) =~= texts(before).insert(k as int, x@));
}

/// The given texts in order, each once.
pub fn sort_texts(v: &Vec<String>) -> (r: Vec<String>)
    ensures
        texts(r@) == sorted_texts(texts(v@)),
{
    let mut r: Vec<String> = Vec::new();
    let mut i: usize = 0;
    assert(texts(r@) =~= Seq::empty());
    while i < v.len()
        invariant
            i <= v@.len(),
            texts(r@) == sorted_texts(texts(v@).subrange(0, i as int)),
        decreases v@.len() - i,
    {
        insert_text(&mut r, v[i].clone());
        assert(texts(v@).subrange(0, i as int + 1).drop_last() =~= texts(v@).subrange(0, i as int));
        i += 1;
    }
    proof {
        whole(texts(v@));
    }
    r
}

/// The first place, at or behind `i`, of a newest-first order whose time lies
/// before `t`.
pub open spec fn newer_from(times: Seq<u64>, order: Seq<usize>, t: u64, i: int) -> int
    decreases order.len() - i,
{
    if i < 0 || i >= order.len() || times[order[i] as int] < t {
        i
    } else {
        newer_from(times, order, t, i + 1)
    }
}

/// The positions of the first `n` times, newest first; equal times keep their
/// order.
pub open spec fn newest_first(times: Seq<u64>, n: int) -> Seq<usize>
    decreases n,
{
    if n <= 0 {
        Seq::empty()
    } else {
        let o = newest_first(times, n - 1);
        o.insert(newer_from(times, o, times[n - 1], 0), (n - 1) as usize)
    }
}

proof fn newer_from_bounds(times: Seq<u64>, order: Seq<usize>, t: u64, i: int)
    requires
        0 <= i <= order.len(),
    ensures
        i <= newer_from(times, order, t, i) <= order.len(),
        forall|k: int|
            i <= k < newer_from(times, order, t, i) ==> times[#[trigger] order[k] as int] >= t,
        newer_from(times, order, t, i) < order.len() ==> times[order[newer_from(
            times,
            order,
            t,
            i,
        )] as int] < t,
    decreases order.len() - i,
{
    if i < order.len() && times[order[i] as int] >= t {
        newer_from_bounds(times, order, t, i + 1);
    }
}

/// A newest-first order lists positions of the sequence, as many as there are,
/// and no time in it is older than the next.
pub proof fn newest_first_descends(times: Seq<u64>, n: int)
    requires
        0 <= n <= times.len(),
        times.len() <= usize::MAX,
    ensures
        newest_first(times, n).len() == n,
        forall|k: int| 0 <= k < n ==> 0 <= #[trigger] newest_first(times, n)[k] < n,
        forall|i: int, j: int|
            0 <= i < j < n ==> times[#[trigger] newest_first(times, n)[i] as int]
                >= times[#[trigger] newest_first(times, n)[j] as int],
    decreases n,
{
    if n > 0 {
        newest_first_descends(times, n - 1);
        let o = newest_first(times, n - 1);
        let t = times[n - 1];
        let k = newer_from(times, o, t, 0);
        newer_from_bounds(times, o, t, 0);
        let r = newest_first(times, n);
        assert(r == o.insert(k, (n - 1) as usize));
        assert forall|m: int| 0 <= m < n implies 0 <= #[trigger] r[m] < n by {
            if m < k {
                assert(r[m] == o[m]);
            } else if m > k {
                assert(r[m] == o[m - 1]);
            }
        }
        assert forall|i: int, j: int| 0 <= i < j < n implies times[#[trigger] r[i] as int]
            >= times[#[trigger] r[j] as int] by {
            if j < k {
                assert(r[i] == o[i] && r[j] == o[j]);
            } else if j == k {
                assert(r[i] == o[i]);
            } else if i < k {
                assert(r[i] == o[i] && r[j] == o[j - 1]);
            } else if i == k {
                assert(r[j] == o[j - 1]);
                if j - 1 > k {
                    assert(times[o[k] as int] >= times[o[j - 1] as int]);
                }
            } else {
                assert(r[i] == o[i - 1] && r[j] == o[j - 1]);
            }
        }
    }
}

/// The positions of the given times, newest first; equal times keep their order.
pub fn newest_order(times: &Vec<u64>) -> (r: Vec<usize>)
    ensures
        r@ == newest_first(times@, times@.len() as int),
        r@.len() == times@.len(),
        forall|k: int| 0 <= k < r@.len() ==> 0 <= #[trigger] r@[k] < times@.len(),
{
    let mut r: Vec<usize> = Vec::new();
    let total_len: usize = times.len();
    let mut n: usize = 0;
    while n < total_len
        invariant
            n <= total_len == times@.len(),
            r@ == newest_first(times@, n as int),
        decreases total_len - n,
    {
        proof {
            newest_first_descends(times@, n as int);
        }
        let mut k: usize = 0;
        while k < r.len() && times[r[k]] >= times[n]
            invariant
                n < times@.len(),
                k <= r@.len(),
                r@ == newest_first(times@, n as int),
                forall|m: int| 0 <= m < r@.len() ==> 0 <= #[trigger] r@[m] < n,
                newer_from(times@, r@, times@[n as int], 0) == newer_from(
                    times@,
                    r@,
                    times@[n as int],
                    k as int,
                ),
            decreases r@.len() - k,
        {
            k += 1;
        }
        r.insert(k, n);
        n += 1;
    }
    proof {
        newest_first_descends(times@, total_len as int);
    }
    r
}

/// A newest-first order lists every position once, and of positions with the same
/// time the earlier one first.
pub proof fn newest_first_lists_each_once(times: Seq<u64>, n: int)
    requires
        0 <= n <= times.len(),
        times.len() <= usize::MAX,
    ensures
        forall|k: int| 0 <= k < n ==> newest_first(times, n).contains(#[trigger] (k as usize)),
        forall|i: int, j: int|
            0 <= i < j < n ==> #[trigger] newest_first(times, n)[i]
                != #[trigger] newest_first(times, n)[j],
        forall|i: int, j: int|
            0 <= i < j < n && times[#[trigger] newest_first(times, n)[i] as int]
                == times[#[trigger] newest_first(times, n)[j] as int] ==> newest_first(times, n)[i]
                < newest_first(times, n)[j],
    decreases n,
{
    if n > 0 {
        newest_first_lists_each_once(times, n - 1);
        newest_first_descends(times, n - 1);
        let o = newest_first(times, n - 1);
        let r = newest_first(times, n);
        let at = newer_from(times, o, times[n - 1], 0);
        newer_from_bounds(times, o, times[n - 1], 0);
        assert(r == o.insert(at, (n - 1) as usize));
        assert forall|k: int| 0 <= k < n implies r.contains(#[trigger] (k as usize)) by {
            if k == n - 1 {
                assert(r[at] == k as usize);
            } else {
                assert(o.contains(k as usize));
                let i = choose|i: int| 0 <= i < o.len() && o[i] == k as usize;
                if i < at {
                    assert(r[i] == o[i]);
                } else {
                    assert(r[i + 1] == o[i]);
                }
            }
        }
        assert forall|i: int, j: int| 0 <= i < j < n implies #[trigger] r[i] != #[trigger] r[j] && (
        times[r[i] as int] == times[r[j] as int] ==> r[i] < r[j]) by {
            if j < at {
                assert(r[i] == o[i] && r[j] == o[j]);
            } else if j == at {
                assert(r[i] == o[i]);
            } else if i < at {
                assert(r[i] == o[i] && r[j] == o[j - 1]);
            } else if i == at {
                assert(r[j] == o[j - 1]);
                assert(times[o[at] as int] >= times[o[j - 1] as int]) by {
                    if at < j - 1 {
                        assert(0 <= at < j - 1 < n - 1);
                    }
                }
            } else {
                assert(r[i] == o[i - 1] && r[j] == o[j - 1]);
            }
        }
    }
}

} // verus!

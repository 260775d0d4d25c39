use crate::distance::{MAX_TRIGRAMS, Trigram, find_rank};
use vstd::prelude::*;
use vstd::set_lib::*;

verus! {

/// The character put before the first and after the last letter of a text, so that
/// trigrams at its edges differ from those inside it.
pub const PAD: char = ' ';

/// The text with one padding character on each side.
pub open spec fn padded(chars: Seq<char>) -> Seq<char> {
    seq![PAD] + chars + seq![PAD]
}

/// Every window of three consecutive characters of the padded text, in order.
pub open spec fn windows(chars: Seq<char>) -> Seq<Trigram> {
    Seq::new(chars.len(), |k: int| (padded(chars)[k], padded(chars)[k + 1], padded(chars)[k + 2]))
}

/// The distinct trigrams among the first `i` of `w`, in order of first occurrence.
pub open spec fn distinct_upto(w: Seq<Trigram>, i: int) -> Seq<Trigram>
    decreases i,
{
    if i <= 0 {
        seq![]
    } else {
        let d = distinct_upto(w, i - 1);
        if d.contains(w[i - 1]) {
            d
        } else {
            d.push(w[i - 1])
        }
    }
}

/// How often `t` occurs among the first `i` of `w`.
pub open spec fn count_upto(w: Seq<Trigram>, i: int, t: Trigram) -> nat
    decreases i,
{
    if i <= 0 {
        0
    } else {
        count_upto(w, i - 1, t) + if w[i - 1] == t {
            1nat
        } else {
            0nat
        }
    }
}

/// Whether the entry at `b` goes before the entry at `a`: it is more frequent, or as
/// frequent and seen first.
pub open spec fn outranks(counts: Seq<nat>, b: int, a: int) -> bool {
    counts[b] > counts[a] || (counts[b] == counts[a] && b < a)
}

/// How many of the first `n` entries go before the entry at `a`.
pub open spec fn rank_upto(counts: Seq<nat>, a: int, n: int) -> nat
    decreases n,
{
    if n <= 0 {
        0
    } else {
        rank_upto(counts, a, n - 1) + if outranks(counts, n - 1, a) {
            1nat
        } else {
            0nat
        }
    }
}

/// The rank of the entry at `a`: how many entries go before it.
pub open spec fn rank_of(counts: Seq<nat>, a: int) -> nat {
    rank_upto(counts, a, counts.len() as int)
}

/// The distinct trigrams of a text, in order of first occurrence.
pub open spec fn distinct_trigrams(chars: Seq<char>) -> Seq<Trigram> {
    distinct_upto(windows(chars), chars.len() as int)
}

/// How often each distinct trigram of a text occurs in it.
pub open spec fn trigram_counts(chars: Seq<char>) -> Seq<nat> {
    distinct_trigrams(chars).map_values(
        |t: Trigram| count_upto(windows(chars), chars.len() as int, t),
    )
}

/// The ranking of a text: its distinct trigrams by falling frequency, ties in order
/// of first occurrence, cut to `MAX_TRIGRAMS`. Each trigram whose rank is below the
/// cut stands at its rank.
pub open spec fn is_ranking_of(r: Seq<Trigram>, chars: Seq<char>) -> bool {
    let d = distinct_trigrams(chars);
    let c = trigram_counts(chars);
    &&& r.len() == if d.len() < MAX_TRIGRAMS {
        d.len()
    } else {
        MAX_TRIGRAMS as nat
    }
    &&& forall|a: int|
        0 <= a < d.len() && rank_of(c, a) < r.len() ==> #[trigger] r[rank_of(c, a) as int] == d[a]
}

/// The trigram of the padded text that starts at `k`.
fn window_at(chars: &Vec<char>, k: usize) -> (r: Trigram)
    requires
        k < chars@.len(),
    ensures
        r == windows(chars@)[k as int],
{
    let a = if k == 0 {
        PAD
    } else {
        chars[k - 1]
    };
    let b = chars[k];
    let c = if k < chars.len() - 1 {
        chars[k + 1]
    } else {
        PAD
    };
    proof {
        lemma_padded_at(chars@, k as int);
    }
    (a, b, c)
}

proof fn lemma_padded_at(chars: Seq<char>, k: int)
    requires
        0 <= k < chars.len(),
    ensures
        padded(chars)[k] == if k == 0 {
            PAD
        } else {
            chars[k - 1]
        },
        padded(chars)[k + 1] == chars[k],
        padded(chars)[k + 2] == if k + 1 < chars.len() {
            chars[k + 1]
        } else {
            PAD
        },
{
}


/// A trigram that the distinct trigrams so far lack has not occurred so far.
proof fn lemma_absent_uncounted(w: Seq<Trigram>, i: int, t: Trigram)
    requires
        0 <= i <= w.len(),
        !distinct_upto(w, i).contains(t),
    ensures
        count_upto(w, i, t) == 0,
    decreases i,
{
    if i > 0 {
        let d = distinct_upto(w, i - 1);
        if d.contains(t) {
            let k = choose|k: int| 0 <= k < d.len() && d[k] == t;
            if !d.contains(w[i - 1]) {
                assert(d.push(w[i - 1])[k] == t);
            }
        }
        if w[i - 1] == t && !d.contains(w[i - 1]) {
            assert(d.push(w[i - 1])[d.len() as int] == t);
        }
        lemma_absent_uncounted(w, i - 1, t);
    }
}

/// The distinct trigrams of a text, in order of first occurrence, with how often each
/// occurs.
pub fn count_trigrams(chars: &Vec<char>) -> (r: (Vec<Trigram>, Vec<u64>))
    ensures
        r.0@ == distinct_trigrams(chars@),
        r.1@.len() == r.0@.len(),
        forall|a: int| 0 <= a < r.1@.len() ==> r.1@[a] as nat == trigram_counts(chars@)[a],
        r.0@.no_duplicates(),
{
    let ghost w = windows(chars@);
    let mut d: Vec<Trigram> = Vec::new();
    let mut counts: Vec<u64> = Vec::new();
    let mut i: usize = 0;
    while i < chars.len()
        invariant
            w == windows(chars@),
            i <= chars@.len(),
            d@ == distinct_upto(w, i as int),
            counts@.len() == d@.len(),
            forall|a: int| 0 <= a < d@.len() ==> counts@[a] as nat == count_upto(w, i as int, d@[a]),
            forall|a: int| 0 <= a < d@.len() ==> counts@[a] <= i,
            d@.no_duplicates(),
        decreases chars@.len() - i,
    {
        let t = window_at(chars, i);
        let ghost old_d = d@;
        let ghost old_counts = counts@;
        proof {
            d@.index_of_first_ensures(t);
        }
        match find_rank(&d, t) {
            Some(a) => {
                let c = counts[a];
                counts.set(a, c + 1);
                assert forall|b: int| 0 <= b < d@.len() implies counts@[b] as nat == count_upto(
                    w,
                    i + 1,
                    d@[b],
                ) by {
                    if b != a {
                        assert(old_d[b] != old_d[a as int]);
                    }
                }
            },
            None => {
                proof {
                    lemma_absent_uncounted(w, i as int, t);
                }
                d.push(t);
                counts.push(1);
                assert forall|b: int| 0 <= b < d@.len() implies counts@[b] as nat == count_upto(
                    w,
                    i + 1,
                    d@[b],
                ) by {
                    if b < old_d.len() {
                        assert(old_d[b] != t);
                    }
                }
                assert forall|a: int, b: int|
                    0 <= a < d@.len() && 0 <= b < d@.len() && a != b implies d@[a] != d@[b] by {
                    if a < old_d.len() && b < old_d.len() {
                        assert(old_d[a] != old_d[b]);
                    } else if a < old_d.len() {
                        assert(old_d.contains(old_d[a]));
                    } else {
                        assert(old_d.contains(old_d[b]));
                    }
                }
            },
        }
        i += 1;
    }
    proof {
        assert forall|a: int| 0 <= a < counts@.len() implies counts@[a] as nat == trigram_counts(chars@)[a] by {}
    }
    (d, counts)
}


/// The counts of a vector, as natural numbers.
pub open spec fn nat_counts(v: Seq<u64>) -> Seq<nat> {
    v.map_values(|x: u64| x as nat)
}

/// An entry that goes before another has a lower rank.
proof fn lemma_rank_below(c: Seq<nat>, a: int, b: int, n: int)
    requires
        0 <= a < c.len(),
        0 <= b < c.len(),
        0 <= n <= c.len(),
        outranks(c, b, a),
    ensures
        rank_upto(c, a, n) >= rank_upto(c, b, n) + if b < n {
            1nat
        } else {
            0nat
        },
    decreases n,
{
    if n > 0 {
        lemma_rank_below(c, a, b, n - 1);
    }
}

/// Distinct entries have distinct ranks.
proof fn lemma_rank_injective(c: Seq<nat>, a: int, b: int)
    requires
        0 <= a < c.len(),
        0 <= b < c.len(),
        a != b,
    ensures
        rank_of(c, a) != rank_of(c, b),
{
    if outranks(c, b, a) {
        lemma_rank_below(c, a, b, c.len() as int);
    } else {
        lemma_rank_below(c, b, a, c.len() as int);
    }
}

/// The rank of the entry at `a` among `counts`.
fn rank_at(counts: &Vec<u64>, a: usize) -> (r: usize)
    requires
        a < counts@.len(),
    ensures
        r == rank_of(nat_counts(counts@), a as int),
        r < counts@.len(),
{
    let ghost c = nat_counts(counts@);
    let mut r: usize = 0;
    let mut b: usize = 0;
    while b < counts.len()
        invariant
            c == nat_counts(counts@),
            a < counts@.len(),
            b <= counts@.len(),
            r == rank_upto(c, a as int, b as int),
            r <= b,
            b > a ==> r < b,
        decreases counts@.len() - b,
    {
        if counts[b] > counts[a] || (counts[b] == counts[a] && b < a) {
            r += 1;
        }
        b += 1;
    }
    r
}

/// The ranking of a text's trigrams: by falling frequency, ties in order of first
/// occurrence, at most `MAX_TRIGRAMS` of them.
pub fn rank_trigrams(chars: &Vec<char>) -> (r: Vec<Trigram>)
    ensures
        is_ranking_of(r@, chars@),
{
    let (d, counts) = count_trigrams(chars);
    let ghost c = nat_counts(counts@);
    proof {
        assert(c =~= trigram_counts(chars@));
    }
    let cap: usize = if d.len() < MAX_TRIGRAMS {
        d.len()
    } else {
        MAX_TRIGRAMS
    };
    let mut r: Vec<Trigram> = Vec::new();
    let mut k: usize = 0;
    while k < cap
        invariant
            cap <= d@.len(),
            k <= cap,
            r@.len() == k,
        decreases cap - k,
    {
        r.push(d[0]);
        k += 1;
    }
    let mut a: usize = 0;
    while a < d.len()
        invariant
            c == nat_counts(counts@),
            c.len() == d@.len(),
            r@.len() == cap,
            a <= d@.len(),
            forall|x: int|
                0 <= x < a && rank_of(c, x) < cap ==> #[trigger] r@[rank_of(c, x) as int] == d@[x],
        decreases d@.len() - a,
    {
        let rk = rank_at(&counts, a);
        if rk < cap {
            let ghost before = r@;
            r.set(rk, d[a]);
            assert forall|x: int|
                0 <= x < a + 1 && rank_of(c, x) < cap implies #[trigger] r@[rank_of(c, x) as int]
                == d@[x] by {
                if x < a {
                    lemma_rank_injective(c, x, a as int);
                    assert(before[rank_of(c, x) as int] == d@[x]);
                }
            }
        }
        a += 1;
    }
    r
}


/// An entry never goes before itself, so its rank is below the number of entries.
proof fn lemma_rank_bound(c: Seq<nat>, a: int, n: int)
    requires
        0 <= a < c.len(),
        0 <= n <= c.len(),
    ensures
        rank_upto(c, a, n) + (if a < n {
            1int
        } else {
            0int
        }) <= n,
    decreases n,
{
    if n > 0 {
        lemma_rank_bound(c, a, n - 1);
    }
}

/// Every rank below the number of entries belongs to some entry.
proof fn lemma_rank_onto(c: Seq<nat>, p: int)
    requires
        0 <= p < c.len(),
    ensures
        exists|a: int| 0 <= a < c.len() && rank_of(c, a) == p,
{
    let n = c.len() as int;
    let dom = set_int_range(0, n);
    let f = |a: int| rank_of(c, a) as int;
    let img = dom.map(f);
    lemma_int_range(0, n);
    assert forall|x: int, y: int| dom.contains(x) && dom.contains(y) && #[trigger] f(x) == #[trigger] f(
        y,
    ) implies x == y by {
        if x != y {
            lemma_rank_injective(c, x, y);
        }
    }
    lemma_map_size(dom, img, f);
    assert forall|q: int| img.contains(q) implies dom.contains(q) by {
        let a = choose|a: int| dom.contains(a) && q == f(a);
        lemma_rank_bound(c, a, n);
    }
    lemma_subset_equality(img, dom);
    assert(img.contains(p));
}

/// A text has a single ranking.
pub proof fn lemma_ranking_unique(r1: Seq<Trigram>, r2: Seq<Trigram>, chars: Seq<char>)
    requires
        is_ranking_of(r1, chars),
        is_ranking_of(r2, chars),
    ensures
        r1 == r2,
{
    let d = distinct_trigrams(chars);
    let c = trigram_counts(chars);
    assert forall|p: int| 0 <= p < r1.len() implies r1[p] == r2[p] by {
        lemma_rank_onto(c, p);
        let a = choose|a: int| 0 <= a < c.len() && rank_of(c, a) == p;
        assert(r1[rank_of(c, a) as int] == d[a]);
        assert(r2[rank_of(c, a) as int] == d[a]);
    }
    assert(r1 =~= r2);
}

} // verus!

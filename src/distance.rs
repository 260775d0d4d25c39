use vstd::prelude::*;

verus! {

/// Three consecutive characters of a text.
pub type Trigram = (char, char, char);

/// The longest ranking kept for a text and the longest reference profile; also the
/// penalty for a trigram that a profile lacks.
pub const MAX_TRIGRAMS: usize = 300;

/// The absolute difference of two integers.
pub open spec fn abs_diff(a: int, b: int) -> nat {
    if a >= b {
        (a - b) as nat
    } else {
        (b - a) as nat
    }
}

/// What the trigram at rank `i` of the text adds to the distance from `profile`: how
/// far its rank is from its first rank in the profile, or the full penalty where the
/// profile lacks it.
pub open spec fn rank_penalty(ranking: Seq<Trigram>, profile: Seq<Trigram>, i: int) -> nat {
    match profile.index_of_first(ranking[i]) {
        Some(j) => abs_diff(i, j),
        None => MAX_TRIGRAMS as nat,
    }
}

/// The out-of-place distance over the first `n` ranks of the text's ranking.
pub open spec fn distance_upto(ranking: Seq<Trigram>, profile: Seq<Trigram>, n: int) -> nat
    decreases n,
{
    if n <= 0 {
        0
    } else {
        distance_upto(ranking, profile, n - 1) + rank_penalty(ranking, profile, n - 1)
    }
}

/// The out-of-place distance between a text's ranking and a reference profile.
pub open spec fn distance(ranking: Seq<Trigram>, profile: Seq<Trigram>) -> nat {
    distance_upto(ranking, profile, ranking.len() as int)
}

/// Whether two trigrams are equal.
pub fn same_trigram(a: Trigram, b: Trigram) -> (r: bool)
    ensures
        r == (a == b),
{
    a.0 == b.0 && a.1 == b.1 && a.2 == b.2
}

/// The first rank of `t` in `profile`, if it occurs there.
pub fn find_rank(profile: &Vec<Trigram>, t: Trigram) -> (r: Option<usize>)
    ensures
        match r {
            Some(j) => profile@.index_of_first(t) == Some(j as int),
            None => profile@.index_of_first(t) is None,
        },
{
    proof {
        profile@.index_of_first_ensures(t);
    }
    let mut j: usize = 0;
    while j < profile.len()
        invariant
            j <= profile@.len(),
            forall|k: int| 0 <= k < j ==> profile@[k] != t,
        decreases profile@.len() - j,
    {
        if same_trigram(profile[j], t) {
            assert(profile@[j as int] == t);
            proof {
                profile@.index_of_first_ensures(t);
            }
            return Some(j);
        }
        j += 1;
    }
    None
}

/// The out-of-place distance between a text's ranking and a reference profile.
pub fn profile_distance(ranking: &Vec<Trigram>, profile: &Vec<Trigram>) -> (r: u64)
    requires
        ranking@.len() <= MAX_TRIGRAMS,
        profile@.len() <= MAX_TRIGRAMS,
    ensures
        r == distance(ranking@, profile@),
{
    let mut sum: u64 = 0;
    let mut i: usize = 0;
    while i < ranking.len()
        invariant
            i <= ranking@.len() <= MAX_TRIGRAMS,
            profile@.len() <= MAX_TRIGRAMS,
            sum == distance_upto(ranking@, profile@, i as int),
            sum <= i * MAX_TRIGRAMS,
        decreases ranking@.len() - i,
    {
        let pen: u64 = match find_rank(profile, ranking[i]) {
            Some(j) => {
                proof {
                    profile@.index_of_first_ensures(ranking@[i as int]);
                }
                if i >= j {
                    (i - j) as u64
                } else {
                    (j - i) as u64
                }
            },
            None => MAX_TRIGRAMS as u64,
        };
        assert(pen == rank_penalty(ranking@, profile@, i as int));
        assert(pen <= MAX_TRIGRAMS);
        assert(sum + pen <= (i + 1) * MAX_TRIGRAMS) by (nonlinear_arith)
            requires
                sum <= i * MAX_TRIGRAMS,
                pen <= MAX_TRIGRAMS,
        ;
        sum = sum + pen;
        i += 1;
    }
    sum
}

} // verus!

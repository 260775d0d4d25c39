use crate::confidence::{Confidence, calculate_confidence, confidence_of};
use crate::distance::{MAX_TRIGRAMS, Trigram, distance, profile_distance};
use crate::filter_list::{FilterList, allows};
use crate::lang::{Lang, script_of};
use crate::script::{Script, direct_lang_of, lemma_script_index, script_index};
use crate::text::{
    dominant_script, has_no_script, in_script, is_ascii_without_letters, is_dominant, normalize,
    normalized, script_letters,
};
use crate::trigram::{is_ranking_of, lemma_ranking_unique, rank_trigrams};
use vstd::prelude::*;

verus! {

/// The reference profile of one language: its most frequent trigrams, most frequent
/// first. Where two profiles of a table are equally near a text, the one that comes
/// first in the table wins.
#[derive(Clone, Debug)]
pub struct Profile {
    pub lang: Lang,
    pub trigrams: Vec<Trigram>,
}

/// What a detection found.
#[derive(Clone, Copy, Debug, PartialEq, Eq, Structural)]
pub struct Info {
    pub lang: Lang,
    pub script: Script,
    pub confidence: Confidence,
}

/// Why a detection found nothing.
#[derive(Clone, Copy, Debug, PartialEq, Eq, Structural)]
pub enum DetectError {
    /// No letter of the text belongs to a supported script.
    NotEnoughText,
    /// The filter and the script leave no language to compare against.
    NoCandidates,
}

/// What a caller can ask of a detection.
#[derive(Clone, Debug)]
pub struct Options {
    pub filter_list: FilterList,
}

impl Options {
    /// No restriction.
    pub fn new() -> (r: Options)
        ensures
            r.filter_list == FilterList::All,
    {
        Options { filter_list: FilterList::All }
    }

    /// These options with the given filter.
    pub fn with_filter_list(self, filter_list: FilterList) -> (r: Options)
        ensures
            r.filter_list == filter_list,
    {
        Options { filter_list }
    }
}

impl Info {
    /// The detected language.
    pub fn lang(&self) -> (r: Lang)
        ensures
            r == self.lang,
    {
        self.lang
    }

    /// The detected script.
    pub fn script(&self) -> (r: Script)
        ensures
            r == self.script,
    {
        self.script
    }

    /// How sure the detection is.
    pub fn confidence(&self) -> (r: Confidence)
        ensures
            r == self.confidence,
    {
        self.confidence
    }
}

/// Every profile is within the length the ranking is cut to.
pub open spec fn profiles_wf(ps: Seq<Profile>) -> bool {
    forall|k: int| 0 <= k < ps.len() ==> #[trigger] ps[k].trigrams@.len() <= MAX_TRIGRAMS
}

/// Whether the profile at `k` takes part in scoring a text of script `sc`.
pub open spec fn is_candidate(ps: Seq<Profile>, sc: Script, f: FilterList, k: int) -> bool {
    0 <= k < ps.len() && script_of(ps[k].lang) == sc && allows(f, ps[k].lang)
}

/// The distance of a ranking from the profile at `k`.
pub open spec fn dist_to(rk: Seq<Trigram>, ps: Seq<Profile>, k: int) -> nat {
    distance(rk, ps[k].trigrams@)
}

/// Whether the profile at `b` is the nearest candidate among the first `n`, ties going
/// to the earlier one.
pub open spec fn is_best_upto(
    rk: Seq<Trigram>,
    ps: Seq<Profile>,
    sc: Script,
    f: FilterList,
    b: int,
    n: int,
) -> bool {
    &&& b < n
    &&& is_candidate(ps, sc, f, b)
    &&& forall|k: int|
        #![trigger is_candidate(ps, sc, f, k)]
        0 <= k < n && is_candidate(ps, sc, f, k) ==> dist_to(rk, ps, k) >= dist_to(rk, ps, b) && (k
            < b ==> dist_to(rk, ps, k) > dist_to(rk, ps, b))
}

/// Whether `d2` is the least distance of the candidates among the first `n` but `b`,
/// `None` where there is no other.
pub open spec fn is_runner_up_upto(
    rk: Seq<Trigram>,
    ps: Seq<Profile>,
    sc: Script,
    f: FilterList,
    b: int,
    d2: Option<u64>,
    n: int,
) -> bool {
    match d2 {
        None => forall|k: int|
            #![trigger is_candidate(ps, sc, f, k)]
            0 <= k < n && k != b ==> !is_candidate(ps, sc, f, k),
        Some(d) => {
            &&& exists|k: int|
                #![trigger is_candidate(ps, sc, f, k)]
                0 <= k < n && k != b && is_candidate(ps, sc, f, k) && dist_to(rk, ps, k) == d
            &&& forall|k: int|
                #![trigger is_candidate(ps, sc, f, k)]
                0 <= k < n && k != b && is_candidate(ps, sc, f, k) ==> dist_to(rk, ps, k) >= d
        },
    }
}

/// Whether no profile is a candidate.
pub open spec fn no_candidate(ps: Seq<Profile>, sc: Script, f: FilterList) -> bool {
    forall|k: int| #![trigger is_candidate(ps, sc, f, k)] 0 <= k < ps.len() ==> !is_candidate(ps, sc, f, k)
}

/// What scoring a ranking against the candidates gives.
pub open spec fn is_scored(
    rk: Seq<Trigram>,
    ps: Seq<Profile>,
    sc: Script,
    f: FilterList,
    r: Result<Info, DetectError>,
) -> bool {
    match r {
        Err(e) => e == DetectError::NoCandidates && no_candidate(ps, sc, f),
        Ok(info) => exists|b: int, d2: Option<u64>|
            #![trigger is_runner_up_upto(rk, ps, sc, f, b, d2, ps.len() as int)]
            is_best_upto(rk, ps, sc, f, b, ps.len() as int) && is_runner_up_upto(
                rk,
                ps,
                sc,
                f,
                b,
                d2,
                ps.len() as int,
            ) && info == (Info {
                lang: ps[b].lang,
                script: sc,
                confidence: confidence_of(dist_to(rk, ps, b) as u64, d2),
            }),
    }
}

/// What detecting the language of `text` gives: nothing where no letter has a
/// supported script; the script's own language, with full confidence, where the
/// dominant script is written by one language only; otherwise the nearest candidate
/// profile to the ranking of the letters of the dominant script.
pub open spec fn is_detection(
    text: Seq<char>,
    ps: Seq<Profile>,
    f: FilterList,
    r: Result<Info, DetectError>,
) -> bool {
    let letters = normalized(text);
    if has_no_script(letters) {
        r == Err::<Info, DetectError>(DetectError::NotEnoughText)
    } else {
        exists|sc: Script|
            #![trigger is_dominant(letters, script_index(sc))]
            is_dominant(letters, script_index(sc)) && match direct_lang_of(sc) {
                Some(l) => r == Ok::<Info, DetectError>(
                    Info { lang: l, script: sc, confidence: Confidence { num: 1, den: 1 } },
                ),
                None => exists|rk: Seq<Trigram>|
                    is_ranking_of(rk, in_script(letters, sc)) && #[trigger] is_scored(
                        rk,
                        ps,
                        sc,
                        f,
                        r,
                    ),
            }
    }
}

/// The nearest candidate profile to a ranking, its distance, and the distance of the
/// runner-up if there is one.
fn select_best(rk: &Vec<Trigram>, ps: &Vec<Profile>, sc: Script, f: &FilterList) -> (r: Option<
    (usize, u64, Option<u64>),
>)
    requires
        rk@.len() <= MAX_TRIGRAMS,
        profiles_wf(ps@),
    ensures
        match r {
            None => no_candidate(ps@, sc, *f),
            Some((b, d1, d2)) => is_best_upto(rk@, ps@, sc, *f, b as int, ps@.len() as int)
                && d1 == dist_to(rk@, ps@, b as int) && is_runner_up_upto(
                rk@,
                ps@,
                sc,
                *f,
                b as int,
                d2,
                ps@.len() as int,
            ),
        },
{
    let mut best: Option<(usize, u64)> = None;
    let mut second: Option<u64> = None;
    let mut i: usize = 0;
    while i < ps.len()
        invariant
            rk@.len() <= MAX_TRIGRAMS,
            profiles_wf(ps@),
            i <= ps@.len(),
            match best {
                None => second is None && forall|k: int|
                    #![trigger is_candidate(ps@, sc, *f, k)]
                    0 <= k < i ==> !is_candidate(ps@, sc, *f, k),
                Some((b, db)) => is_best_upto(rk@, ps@, sc, *f, b as int, i as int) && db
                    == dist_to(rk@, ps@, b as int) && is_runner_up_upto(
                    rk@,
                    ps@,
                    sc,
                    *f,
                    b as int,
                    second,
                    i as int,
                ),
            },
        decreases ps@.len() - i,
    {
        let p = &ps[i];
        if p.lang.script() == sc && f.is_allowed(p.lang) {
            assert(is_candidate(ps@, sc, *f, i as int));
            assert(ps@[i as int].trigrams@.len() <= MAX_TRIGRAMS);
            let di = profile_distance(rk, &p.trigrams);
            match best {
                None => {
                    best = Some((i, di));
                },
                Some((b, db)) => {
                    if di < db {
                        second = Some(db);
                        best = Some((i, di));
                        assert(is_candidate(ps@, sc, *f, b as int));
                    } else {
                        match second {
                            None => {
                                second = Some(di);
                            },
                            Some(d) => {
                                if di < d {
                                    second = Some(di);
                                }
                            },
                        }
                    }
                },
            }
        }
        i += 1;
    }
    match best {
        None => None,
        Some((b, db)) => Some((b, db, second)),
    }
}

/// Scores a ranking against the candidate profiles of script `sc`.
fn score(rk: &Vec<Trigram>, ps: &Vec<Profile>, sc: Script, f: &FilterList) -> (r: Result<
    Info,
    DetectError,
>)
    requires
        rk@.len() <= MAX_TRIGRAMS,
        profiles_wf(ps@),
    ensures
        is_scored(rk@, ps@, sc, *f, r),
        r is Ok ==> allows(*f, r->Ok_0.lang) && script_of(r->Ok_0.lang) == sc && r->Ok_0.script
            == sc,
{
    match select_best(rk, ps, sc, f) {
        None => Err(DetectError::NoCandidates),
        Some((b, d1, d2)) => {
            let info = Info { lang: ps[b].lang, script: sc, confidence: calculate_confidence(d1, d2) };
            assert(is_runner_up_upto(rk@, ps@, sc, *f, b as int, d2, ps@.len() as int));
            Ok(info)
        },
    }
}

/// Detects the language of `text` among the given reference profiles, within the
/// filter of `options`.
pub fn detect_info(text: &str, options: &Options, profiles: &Vec<Profile>) -> (r: Result<
    Info,
    DetectError,
>)
    requires
        profiles_wf(profiles@),
    ensures
        is_detection(text@, profiles@, options.filter_list, r),
        is_ascii_without_letters(text@) ==> r == Err::<Info, DetectError>(
            DetectError::NotEnoughText,
        ),
        r is Ok && direct_lang_of(r->Ok_0.script) is None ==> allows(
            options.filter_list,
            r->Ok_0.lang,
        ) && script_of(r->Ok_0.lang) == r->Ok_0.script,
{
    let letters = normalize(text);
    match dominant_script(&letters) {
        None => Err(DetectError::NotEnoughText),
        Some(sc) => {
            let ghost l = letters@;
            assert(is_dominant(l, script_index(sc)));
            assert(!has_no_script(l));
            match sc.direct_lang() {
                Some(lang) => Ok(
                    Info { lang, script: sc, confidence: Confidence { num: 1, den: 1 } },
                ),
                None => {
                    let chars = script_letters(&letters, sc);
                    let rk = rank_trigrams(&chars);
                    let r = score(&rk, profiles, sc, &options.filter_list);
                    assert(is_ranking_of(rk@, in_script(l, sc)));
                    assert(is_scored(rk@, profiles@, sc, options.filter_list, r));
                    r
                },
            }
        },
    }
}

/// The language a detection found, if it found one.
pub open spec fn found(r: Result<Info, DetectError>) -> Option<Info> {
    match r {
        Ok(info) => Some(info),
        Err(_) => None,
    }
}

/// Detects the language of `text` among the given reference profiles, within the
/// filter of `options`; `None` where the detection finds nothing.
pub fn detect_with_options(text: &str, options: &Options, profiles: &Vec<Profile>) -> (r: Option<
    Info,
>)
    requires
        profiles_wf(profiles@),
    ensures
        exists|res: Result<Info, DetectError>|
            is_detection(text@, profiles@, options.filter_list, res) && r == found(res),
        is_ascii_without_letters(text@) ==> r is None,
        r is Some && direct_lang_of(r->Some_0.script) is None ==> allows(
            options.filter_list,
            r->Some_0.lang,
        ) && script_of(r->Some_0.lang) == r->Some_0.script,
{
    let res = detect_info(text, options, profiles);
    let r = match res {
        Ok(info) => Some(info),
        Err(_) => None,
    };
    assert(is_detection(text@, profiles@, options.filter_list, res) && r == found(res));
    r
}

/// Detects the language of `text` among the given reference profiles, with no
/// restriction; `None` where the detection finds nothing.
pub fn detect(text: &str, profiles: &Vec<Profile>) -> (r: Option<Info>)
    requires
        profiles_wf(profiles@),
    ensures
        exists|res: Result<Info, DetectError>|
            is_detection(text@, profiles@, FilterList::All, res) && r == found(res),
        is_ascii_without_letters(text@) ==> r is None,
{
    let options = Options::new();
    detect_with_options(text, &options, profiles)
}

/// The language alone that `detect` finds.
pub fn detect_lang(text: &str, profiles: &Vec<Profile>) -> (r: Option<Lang>)
    requires
        profiles_wf(profiles@),
    ensures
        exists|res: Result<Info, DetectError>|
            is_detection(text@, profiles@, FilterList::All, res) && r == match found(res) {
                Some(info) => Some(info.lang),
                None => None,
            },
        is_ascii_without_letters(text@) ==> r is None,
{
    match detect(text, profiles) {
        Some(info) => Some(info.lang),
        None => None,
    }
}

/// Scoring a ranking has a single outcome.
proof fn lemma_scored_unique(
    rk: Seq<Trigram>,
    ps: Seq<Profile>,
    sc: Script,
    f: FilterList,
    r1: Result<Info, DetectError>,
    r2: Result<Info, DetectError>,
)
    requires
        is_scored(rk, ps, sc, f, r1),
        is_scored(rk, ps, sc, f, r2),
    ensures
        r1 == r2,
{
    let n = ps.len() as int;
    if r1 is Ok {
        let (b1, e1) = choose|b: int, d2: Option<u64>|
            is_best_upto(rk, ps, sc, f, b, n) && is_runner_up_upto(rk, ps, sc, f, b, d2, n) && r1
                == Ok::<Info, DetectError>(
                Info {
                    lang: ps[b].lang,
                    script: sc,
                    confidence: confidence_of(dist_to(rk, ps, b) as u64, d2),
                },
            );
        assert(is_candidate(ps, sc, f, b1));
        if r2 is Ok {
            let (b2, e2) = choose|b: int, d2: Option<u64>|
                is_best_upto(rk, ps, sc, f, b, n) && is_runner_up_upto(rk, ps, sc, f, b, d2, n)
                    && r2 == Ok::<Info, DetectError>(
                    Info {
                        lang: ps[b].lang,
                        script: sc,
                        confidence: confidence_of(dist_to(rk, ps, b) as u64, d2),
                    },
                );
            assert(is_candidate(ps, sc, f, b2));
            assert(b1 == b2);
            match (e1, e2) {
                (Some(x), Some(y)) => {
                    let k1 = choose|k: int|
                        0 <= k < n && k != b1 && is_candidate(ps, sc, f, k) && dist_to(rk, ps, k)
                            == x;
                    let k2 = choose|k: int|
                        0 <= k < n && k != b1 && is_candidate(ps, sc, f, k) && dist_to(rk, ps, k)
                            == y;
                    assert(x == y);
                },
                (Some(x), None) => {
                    let k1 = choose|k: int|
                        0 <= k < n && k != b1 && is_candidate(ps, sc, f, k) && dist_to(rk, ps, k)
                            == x;
                    assert(!is_candidate(ps, sc, f, k1));
                },
                (None, Some(y)) => {
                    let k2 = choose|k: int|
                        0 <= k < n && k != b1 && is_candidate(ps, sc, f, k) && dist_to(rk, ps, k)
                            == y;
                    assert(!is_candidate(ps, sc, f, k2));
                },
                (None, None) => {},
            }
        } else {
            assert(!is_candidate(ps, sc, f, b1));
        }
    } else if r2 is Ok {
        let (b2, e2) = choose|b: int, d2: Option<u64>|
            is_best_upto(rk, ps, sc, f, b, n) && is_runner_up_upto(rk, ps, sc, f, b, d2, n) && r2
                == Ok::<Info, DetectError>(
                Info {
                    lang: ps[b].lang,
                    script: sc,
                    confidence: confidence_of(dist_to(rk, ps, b) as u64, d2),
                },
            );
        assert(is_candidate(ps, sc, f, b2));
    }
}

/// Detection is a function of its inputs: the same text, profiles and filter always
/// give the same outcome, so detecting twice gives equal results, and the tie-break
/// between equally near profiles never varies.
pub proof fn lemma_detection_unique(
    text: Seq<char>,
    ps: Seq<Profile>,
    f: FilterList,
    r1: Result<Info, DetectError>,
    r2: Result<Info, DetectError>,
)
    requires
        is_detection(text, ps, f, r1),
        is_detection(text, ps, f, r2),
    ensures
        r1 == r2,
{
    let letters = normalized(text);
    if !has_no_script(letters) {
        let s1 = choose|sc: Script|
            is_dominant(letters, script_index(sc)) && match direct_lang_of(sc) {
                Some(l) => r1 == Ok::<Info, DetectError>(
                    Info { lang: l, script: sc, confidence: Confidence { num: 1, den: 1 } },
                ),
                None => exists|rk: Seq<Trigram>|
                    is_ranking_of(rk, in_script(letters, sc)) && #[trigger] is_scored(
                        rk,
                        ps,
                        sc,
                        f,
                        r1,
                    ),
            };
        let s2 = choose|sc: Script|
            is_dominant(letters, script_index(sc)) && match direct_lang_of(sc) {
                Some(l) => r2 == Ok::<Info, DetectError>(
                    Info { lang: l, script: sc, confidence: Confidence { num: 1, den: 1 } },
                ),
                None => exists|rk: Seq<Trigram>|
                    is_ranking_of(rk, in_script(letters, sc)) && #[trigger] is_scored(
                        rk,
                        ps,
                        sc,
                        f,
                        r2,
                    ),
            };
        let i1 = script_index(s1);
        let i2 = script_index(s2);
        assert(crate::text::script_count(letters, i1) <= crate::text::script_count(letters, i2));
        assert(crate::text::script_count(letters, i2) <= crate::text::script_count(letters, i1));
        assert(i1 == i2);
        lemma_script_index(s1);
        lemma_script_index(s2);
        assert(s1 == s2);
        if direct_lang_of(s1) is None {
            let rk1 = choose|rk: Seq<Trigram>|
                is_ranking_of(rk, in_script(letters, s1)) && #[trigger] is_scored(rk, ps, s1, f, r1);
            let rk2 = choose|rk: Seq<Trigram>|
                is_ranking_of(rk, in_script(letters, s1)) && #[trigger] is_scored(rk, ps, s1, f, r2);
            lemma_ranking_unique(rk1, rk2, in_script(letters, s1));
            lemma_scored_unique(rk1, ps, s1, f, r1, r2);
        }
    }
}

} // verus!

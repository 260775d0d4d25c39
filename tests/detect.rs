use whatlang::confidence::{calculate_confidence, Confidence};
use whatlang::detect::{
    detect, detect_info, detect_lang, detect_with_options, DetectError, Options, Profile,
};
use whatlang::distance::profile_distance;
use whatlang::filter_list::FilterList;
use whatlang::lang::Lang;
use whatlang::script::Script;
use whatlang::text::{dominant_script, normalize, script_tally};
use whatlang::trigram::{count_trigrams, rank_trigrams};

const FRENCH: &str = "Le français est une langue romane parlée en France, en Belgique, en Suisse et au Canada. \
Elle est la langue officielle de nombreux pays et une des langues de travail des organisations internationales. \
Les enfants apprennent à lire et à écrire dans les écoles publiques depuis longtemps.";
const ENGLISH: &str = "English is a West Germanic language that was first spoken in early medieval England. \
It is the most widely learned second language and the official language of many countries. \
The children in the schools learn to read and to write with their teachers every day.";
const SPANISH: &str = "El español es una lengua romance que se habla en España y en la mayor parte de América. \
Es la segunda lengua del mundo por el número de personas que la tienen como lengua materna. \
Los niños aprenden a leer y a escribir en las escuelas con sus maestros.";
const RUSSIAN: &str = "Русский язык является одним из восточнославянских языков и национальным языком русского народа. \
Это один из наиболее распространённых языков мира и самый распространённый из славянских языков. \
Дети в школах учатся читать и писать на русском языке.";
const UKRAINIAN: &str = "Українська мова є національною мовою українців і офіційною мовою України. \
Вона належить до східнослов'янської групи слов'янських мов індоєвропейської родини. \
Діти в школах вчаться читати і писати українською мовою щодня.";

fn profile(lang: Lang, sample: &str) -> Profile {
    Profile { lang, trigrams: rank_trigrams(&normalize(sample)) }
}

fn profiles() -> Vec<Profile> {
    vec![
        profile(Lang::Eng, ENGLISH),
        profile(Lang::Fra, FRENCH),
        profile(Lang::Spa, SPANISH),
        profile(Lang::Rus, RUSSIAN),
        profile(Lang::Ukr, UKRAINIAN),
    ]
}

fn ratio(c: Confidence) -> f64 {
    c.num as f64 / c.den as f64
}

#[test]
fn french_sentence_is_french() {
    let text = "Ceci est un texte français suffisamment long pour être détecté correctement";
    let info = detect(text, &profiles()).unwrap();
    assert_eq!(info.lang(), Lang::Fra);
    assert_eq!(info.script(), Script::Latin);
    assert!(ratio(info.confidence()) > 0.0);
}

#[test]
fn russian_sentence_is_russian() {
    let text = "Это пример текста на русском языке для распознавания";
    let info = detect(text, &profiles()).unwrap();
    assert_eq!(info.lang, Lang::Rus);
    assert_eq!(info.script, Script::Cyrillic);
}

#[test]
fn digits_and_punctuation_give_nothing() {
    assert_eq!(detect("123456 !!! ???", &profiles()), None);
    assert_eq!(detect("", &profiles()), None);
    assert_eq!(detect("   ,.;  ", &profiles()), None);
    assert_eq!(
        detect_info("123456 !!! ???", &Options::new(), &profiles()),
        Err(DetectError::NotEnoughText)
    );
}

#[test]
fn detection_is_repeatable() {
    let text = "Les enfants apprennent à lire dans les écoles";
    let ps = profiles();
    assert_eq!(detect(text, &ps), detect(text, &ps));
    assert_eq!(detect_lang(text, &ps), Some(Lang::Fra));
}

#[test]
fn allow_list_excluding_the_true_language() {
    let text = "Ceci est un texte français suffisamment long pour être détecté correctement";
    let options = Options::new().with_filter_list(FilterList::allow(vec![Lang::Eng, Lang::Spa]));
    let info = detect_with_options(text, &options, &profiles()).unwrap();
    assert!(info.lang == Lang::Eng || info.lang == Lang::Spa);
}

#[test]
fn deny_list_excluding_the_true_language() {
    let text = "Это пример текста на русском языке для распознавания";
    let options = Options::new().with_filter_list(FilterList::deny(vec![Lang::Rus]));
    let info = detect_with_options(text, &options, &profiles()).unwrap();
    assert_eq!(info.lang, Lang::Ukr);
}

#[test]
fn no_candidates_left() {
    let text = "Это пример текста на русском языке";
    let options = Options::new().with_filter_list(FilterList::allow(vec![Lang::Eng]));
    assert_eq!(detect_info(text, &options, &profiles()), Err(DetectError::NoCandidates));
    assert_eq!(detect_with_options(text, &options, &profiles()), None);
}

#[test]
fn equal_distances_go_to_the_earlier_profile() {
    let same = rank_trigrams(&normalize("abcabc"));
    let ps = vec![
        Profile { lang: Lang::Deu, trigrams: same.clone() },
        Profile { lang: Lang::Nld, trigrams: same.clone() },
    ];
    for _ in 0..3 {
        let info = detect("xyz", &ps).unwrap();
        assert_eq!(info.lang, Lang::Deu);
        assert_eq!(info.confidence, Confidence { num: 0, den: 1 });
    }
    let swapped = vec![
        Profile { lang: Lang::Nld, trigrams: same.clone() },
        Profile { lang: Lang::Deu, trigrams: same },
    ];
    assert_eq!(detect("xyz", &swapped).unwrap().lang, Lang::Nld);
}

#[test]
fn single_language_script_is_direct() {
    let info = detect("Καλημέρα κόσμε", &profiles()).unwrap();
    assert_eq!(info.lang, Lang::Ell);
    assert_eq!(info.script, Script::Greek);
    assert_eq!(info.confidence, Confidence { num: 1, den: 1 });
    let options = Options::new().with_filter_list(FilterList::allow(vec![Lang::Eng]));
    assert_eq!(detect_with_options("こんにちは", &options, &profiles()).unwrap().lang, Lang::Jpn);
}

#[test]
fn confidence_formula() {
    assert_eq!(calculate_confidence(0, Some(10)), Confidence { num: 1, den: 1 });
    assert_eq!(calculate_confidence(0, None), Confidence { num: 1, den: 1 });
    assert_eq!(calculate_confidence(5, None), Confidence { num: 1, den: 2 });
    assert_eq!(calculate_confidence(25, Some(100)), Confidence { num: 75, den: 100 });
    assert_eq!(calculate_confidence(7, Some(7)), Confidence { num: 0, den: 1 });
    assert_eq!(calculate_confidence(9, Some(3)), Confidence { num: 0, den: 1 });
}

#[test]
fn distance_counts_rank_offsets_and_penalties() {
    let ranking = vec![('a', 'b', 'c'), ('b', 'c', 'd'), ('x', 'y', 'z')];
    let profile = vec![('b', 'c', 'd'), ('a', 'b', 'c')];
    assert_eq!(profile_distance(&ranking, &profile), 1 + 1 + 300);
    assert_eq!(profile_distance(&ranking, &ranking), 0);
    assert_eq!(profile_distance(&vec![], &profile), 0);
}

#[test]
fn trigrams_are_padded_counted_and_ranked() {
    let chars: Vec<char> = "abab".chars().collect();
    let (distinct, counts) = count_trigrams(&chars);
    assert_eq!(distinct, vec![(' ', 'a', 'b'), ('a', 'b', 'a'), ('b', 'a', 'b'), ('a', 'b', ' ')]);
    assert_eq!(counts, vec![1, 1, 1, 1]);
    let chars: Vec<char> = "aaaa".chars().collect();
    assert_eq!(rank_trigrams(&chars), vec![('a', 'a', 'a'), (' ', 'a', 'a'), ('a', 'a', ' ')]);
    assert_eq!(rank_trigrams(&vec![]), vec![]);
}

#[test]
fn ranking_is_capped() {
    let mut chars = Vec::new();
    for i in 0..400u32 {
        chars.push(char::from_u32(0x4E00 + i).unwrap());
    }
    assert_eq!(rank_trigrams(&chars).len(), 300);
}

#[test]
fn normalizer_lowers_and_keeps_letters() {
    assert_eq!(normalize("Hé, 12 Ab!"), vec!['h', 'é', 'a', 'b']);
    assert_eq!(normalize("ПРИВЕТ"), "привет".chars().collect::<Vec<char>>());
    assert_eq!(normalize("  42 ?"), Vec::<char>::new());
}

#[test]
fn dominant_script_and_tally() {
    let chars: Vec<char> = "abcжзαβγ".chars().collect();
    let tally = script_tally(&chars);
    assert_eq!(tally[Script::Latin.index()], 3);
    assert_eq!(tally[Script::Greek.index()], 3);
    assert_eq!(tally[Script::Cyrillic.index()], 2);
    assert_eq!(dominant_script(&chars), Some(Script::Latin));
    let chars: Vec<char> = "abжзи".chars().collect();
    assert_eq!(dominant_script(&chars), Some(Script::Cyrillic));
    assert_eq!(dominant_script(&vec!['1', '!']), None);
}

#[test]
fn filter_lists() {
    assert!(FilterList::all().is_allowed(Lang::Fra));
    assert!(FilterList::allow(vec![]).is_allowed(Lang::Fra));
    assert!(FilterList::allow(vec![Lang::Fra]).is_allowed(Lang::Fra));
    assert!(!FilterList::allow(vec![Lang::Eng]).is_allowed(Lang::Fra));
    assert!(!FilterList::deny(vec![Lang::Fra]).is_allowed(Lang::Fra));
    assert!(FilterList::deny(vec![]).is_allowed(Lang::Fra));
}

use crate::script::Script;
use vstd::prelude::*;
use vstd::string::*;

verus! {

/// A language the detector can recognise, keyed by its ISO 639-3 code.
#[derive(Clone, Copy, Debug, PartialEq, Eq, Hash, Structural)]
pub enum Lang {
    Epo,
    Eng,
    Rus,
    Cmn,
    Spa,
    Por,
    Ita,
    Ben,
    Fra,
    Deu,
    Ukr,
    Kat,
    Ara,
    Hin,
    Jpn,
    Heb,
    Yid,
    Pol,
    Amh,
    Jav,
    Kor,
    Nob,
    Dan,
    Swe,
    Fin,
    Tur,
    Nld,
    Hun,
    Ces,
    Ell,
    Bul,
    Bel,
    Mar,
    Kan,
    Ron,
    Slv,
    Hrv,
    Srp,
    Mkd,
    Lit,
    Lav,
    Est,
    Tam,
    Vie,
    Urd,
    Tha,
    Guj,
    Uzb,
    Pan,
    Aze,
    Ind,
    Tel,
    Pes,
    Mal,
    Ori,
    Mya,
    Nep,
    Sin,
    Khm,
    Tuk,
    Aka,
    Zul,
    Sna,
    Afr,
    Lat,
    Slk,
    Cat,
    Tgl,
    Hye,
}

/// Every supported language, in declaration order.
pub open spec fn all_langs() -> Seq<Lang> {
    seq![Lang::Epo, Lang::Eng, Lang::Rus, Lang::Cmn, Lang::Spa, Lang::Por, Lang::Ita, Lang::Ben, Lang::Fra, Lang::Deu, Lang::Ukr, Lang::Kat, Lang::Ara, Lang::Hin, Lang::Jpn, Lang::Heb, Lang::Yid, Lang::Pol, Lang::Amh, Lang::Jav, Lang::Kor, Lang::Nob, Lang::Dan, Lang::Swe, Lang::Fin, Lang::Tur, Lang::Nld, Lang::Hun, Lang::Ces, Lang::Ell, Lang::Bul, Lang::Bel, Lang::Mar, Lang::Kan, Lang::Ron, Lang::Slv, Lang::Hrv, Lang::Srp, Lang::Mkd, Lang::Lit, Lang::Lav, Lang::Est, Lang::Tam, Lang::Vie, Lang::Urd, Lang::Tha, Lang::Guj, Lang::Uzb, Lang::Pan, Lang::Aze, Lang::Ind, Lang::Tel, Lang::Pes, Lang::Mal, Lang::Ori, Lang::Mya, Lang::Nep, Lang::Sin, Lang::Khm, Lang::Tuk, Lang::Aka, Lang::Zul, Lang::Sna, Lang::Afr, Lang::Lat, Lang::Slk, Lang::Cat, Lang::Tgl, Lang::Hye]
}

/// The ISO 639-3 code of a language, in lower case.
pub open spec fn code_of(l: Lang) -> Seq<char> {
    match l {
        Lang::Epo => seq!['e', 'p', 'o'],
        Lang::Eng => seq!['e', 'n', 'g'],
        Lang::Rus => seq!['r', 'u', 's'],
        Lang::Cmn => seq!['c', 'm', 'n'],
        Lang::Spa => seq!['s', 'p', 'a'],
        Lang::Por => seq!['p', 'o', 'r'],
        Lang::Ita => seq!['i', 't', 'a'],
        Lang::Ben => seq!['b', 'e', 'n'],
        Lang::Fra => seq!['f', 'r', 'a'],
        Lang::Deu => seq!['d', 'e', 'u'],
        Lang::Ukr => seq!['u', 'k', 'r'],
        Lang::Kat => seq!['k', 'a', 't'],
        Lang::Ara => seq!['a', 'r', 'a'],
        Lang::Hin => seq!['h', 'i', 'n'],
        Lang::Jpn => seq!['j', 'p', 'n'],
        Lang::Heb => seq!['h', 'e', 'b'],
        Lang::Yid => seq!['y', 'i', 'd'],
        Lang::Pol => seq!['p', 'o', 'l'],
        Lang::Amh => seq!['a', 'm', 'h'],
        Lang::Jav => seq!['j', 'a', 'v'],
        Lang::Kor => seq!['k', 'o', 'r'],
        Lang::Nob => seq!['n', 'o', 'b'],
        Lang::Dan => seq!['d', 'a', 'n'],
        Lang::Swe => seq!['s', 'w', 'e'],
        Lang::Fin => seq!['f', 'i', 'n'],
        Lang::Tur => seq!['t', 'u', 'r'],
        Lang::Nld => seq!['n', 'l', 'd'],
        Lang::Hun => seq!['h', 'u', 'n'],
        Lang::Ces => seq!['c', 'e', 's'],
        Lang::Ell => seq!['e', 'l', 'l'],
        Lang::Bul => seq!['b', 'u', 'l'],
        Lang::Bel => seq!['b', 'e', 'l'],
        Lang::Mar => seq!['m', 'a', 'r'],
        Lang::Kan => seq!['k', 'a', 'n'],
        Lang::Ron => seq!['r', 'o', 'n'],
        Lang::Slv => seq!['s', 'l', 'v'],
        Lang::Hrv => seq!['h', 'r', 'v'],
        Lang::Srp => seq!['s', 'r', 'p'],
        Lang::Mkd => seq!['m', 'k', 'd'],
        Lang::Lit => seq!['l', 'i', 't'],
        Lang::Lav => seq!['l', 'a', 'v'],
        Lang::Est => seq!['e', 's', 't'],
        Lang::Tam => seq!['t', 'a', 'm'],
        Lang::Vie => seq!['v', 'i', 'e'],
        Lang::Urd => seq!['u', 'r', 'd'],
        Lang::Tha => seq!['t', 'h', 'a'],
        Lang::Guj => seq!['g', 'u', 'j'],
        Lang::Uzb => seq!['u', 'z', 'b'],
        Lang::Pan => seq!['p', 'a', 'n'],
        Lang::Aze => seq!['a', 'z', 'e'],
        Lang::Ind => seq!['i', 'n', 'd'],
        Lang::Tel => seq!['t', 'e', 'l'],
        Lang::Pes => seq!['p', 'e', 's'],
        Lang::Mal => seq!['m', 'a', 'l'],
        Lang::Ori => seq!['o', 'r', 'i'],
        Lang::Mya => seq!['m', 'y', 'a'],
        Lang::Nep => seq!['n', 'e', 'p'],
        Lang::Sin => seq!['s', 'i', 'n'],
        Lang::Khm => seq!['k', 'h', 'm'],
        Lang::Tuk => seq!['t', 'u', 'k'],
        Lang::Aka => seq!['a', 'k', 'a'],
        Lang::Zul => seq!['z', 'u', 'l'],
        Lang::Sna => seq!['s', 'n', 'a'],
        Lang::Afr => seq!['a', 'f', 'r'],
        Lang::Lat => seq!['l', 'a', 't'],
        Lang::Slk => seq!['s', 'l', 'k'],
        Lang::Cat => seq!['c', 'a', 't'],
        Lang::Tgl => seq!['t', 'g', 'l'],
        Lang::Hye => seq!['h', 'y', 'e'],
    }
}

/// The name of a language in the language itself.
pub open spec fn name_of(l: Lang) -> Seq<char> {
    match l {
        Lang::Epo => "Esperanto"@,
        Lang::Eng => "English"@,
        Lang::Rus => "Русский"@,
        Lang::Cmn => "普通话"@,
        Lang::Spa => "Español"@,
        Lang::Por => "Português"@,
        Lang::Ita => "Italiano"@,
        Lang::Ben => "বাংলা"@,
        Lang::Fra => "Français"@,
        Lang::Deu => "Deutsch"@,
        Lang::Ukr => "Українська"@,
        Lang::Kat => "ქართული"@,
        Lang::Ara => "العربية"@,
        Lang::Hin => "हिन्दी"@,
        Lang::Jpn => "日本語"@,
        Lang::Heb => "עברית"@,
        Lang::Yid => "ייִדיש"@,
        Lang::Pol => "Polski"@,
        Lang::Amh => "አማርኛ"@,
        Lang::Jav => "Basa Jawa"@,
        Lang::Kor => "한국어"@,
        Lang::Nob => "Bokmål"@,
        Lang::Dan => "Dansk"@,
        Lang::Swe => "Svenska"@,
        Lang::Fin => "Suomi"@,
        Lang::Tur => "Türkçe"@,
        Lang::Nld => "Nederlands"@,
        Lang::Hun => "Magyar"@,
        Lang::Ces => "Čeština"@,
        Lang::Ell => "Ελληνικά"@,
        Lang::Bul => "Български"@,
        Lang::Bel => "Беларуская"@,
        Lang::Mar => "मराठी"@,
        Lang::Kan => "ಕನ್ನಡ"@,
        Lang::Ron => "Română"@,
        Lang::Slv => "Slovenščina"@,
        Lang::Hrv => "Hrvatski"@,
        Lang::Srp => "Српски"@,
        Lang::Mkd => "Македонски"@,
        Lang::Lit => "Lietuvių"@,
        Lang::Lav => "Latviešu"@,
        Lang::Est => "Eesti"@,
        Lang::Tam => "தமிழ்"@,
        Lang::Vie => "Tiếng Việt"@,
        Lang::Urd => "اُردُو"@,
        Lang::Tha => "ภาษาไทย"@,
        Lang::Guj => "ગુજરાતી"@,
        Lang::Uzb => "Oʻzbekcha"@,
        Lang::Pan => "ਪੰਜਾਬੀ"@,
        Lang::Aze => "Azərbaycanca"@,
        Lang::Ind => "Bahasa Indonesia"@,
        Lang::Tel => "తెలుగు"@,
        Lang::Pes => "فارسی"@,
        Lang::Mal => "മലയാളം"@,
        Lang::Ori => "ଓଡ଼ିଆ"@,
        Lang::Mya => "မြန်မာ"@,
        Lang::Nep => "नेपाली"@,
        Lang::Sin => "සිංහල"@,
        Lang::Khm => "ភាសាខ្មែរ"@,
        Lang::Tuk => "Türkmençe"@,
        Lang::Aka => "Akan"@,
        Lang::Zul => "IsiZulu"@,
        Lang::Sna => "ChiShona"@,
        Lang::Afr => "Afrikaans"@,
        Lang::Lat => "Lingua Latina"@,
        Lang::Slk => "Slovenčina"@,
        Lang::Cat => "Català"@,
        Lang::Tgl => "Tagalog"@,
        Lang::Hye => "Հայերեն"@,
    }
}

/// The English name of a language.
pub open spec fn eng_name_of(l: Lang) -> Seq<char> {
    match l {
        Lang::Epo => "Esperanto"@,
        Lang::Eng => "English"@,
        Lang::Rus => "Russian"@,
        Lang::Cmn => "Mandarin"@,
        Lang::Spa => "Spanish"@,
        Lang::Por => "Portuguese"@,
        Lang::Ita => "Italian"@,
        Lang::Ben => "Bengali"@,
        Lang::Fra => "French"@,
        Lang::Deu => "German"@,
        Lang::Ukr => "Ukrainian"@,
        Lang::Kat => "Georgian"@,
        Lang::Ara => "Arabic"@,
        Lang::Hin => "Hindi"@,
        Lang::Jpn => "Japanese"@,
        Lang::Heb => "Hebrew"@,
        Lang::Yid => "Yiddish"@,
        Lang::Pol => "Polish"@,
        Lang::Amh => "Amharic"@,
        Lang::Jav => "Javanese"@,
        Lang::Kor => "Korean"@,
        Lang::Nob => "Bokmal"@,
        Lang::Dan => "Danish"@,
        Lang::Swe => "Swedish"@,
        Lang::Fin => "Finnish"@,
        Lang::Tur => "Turkish"@,
        Lang::Nld => "Dutch"@,
        Lang::Hun => "Hungarian"@,
        Lang::Ces => "Czech"@,
        Lang::Ell => "Greek"@,
        Lang::Bul => "Bulgarian"@,
        Lang::Bel => "Belarusian"@,
        Lang::Mar => "Marathi"@,
        Lang::Kan => "Kannada"@,
        Lang::Ron => "Romanian"@,
        Lang::Slv => "Slovene"@,
        Lang::Hrv => "Croatian"@,
        Lang::Srp => "Serbian"@,
        Lang::Mkd => "Macedonian"@,
        Lang::Lit => "Lithuanian"@,
        Lang::Lav => "Latvian"@,
        Lang::Est => "Estonian"@,
        Lang::Tam => "Tamil"@,
        Lang::Vie => "Vietnamese"@,
        Lang::Urd => "Urdu"@,
        Lang::Tha => "Thai"@,
        Lang::Guj => "Gujarati"@,
        Lang::Uzb => "Uzbek"@,
        Lang::Pan => "Punjabi"@,
        Lang::Aze => "Azerbaijani"@,
        Lang::Ind => "Indonesian"@,
        Lang::Tel => "Telugu"@,
        Lang::Pes => "Persian"@,
        Lang::Mal => "Malayalam"@,
        Lang::Ori => "Oriya"@,
        Lang::Mya => "Burmese"@,
        Lang::Nep => "Nepali"@,
        Lang::Sin => "Sinhalese"@,
        Lang::Khm => "Khmer"@,
        Lang::Tuk => "Turkmen"@,
        Lang::Aka => "Akan"@,
        Lang::Zul => "Zulu"@,
        Lang::Sna => "Shona"@,
        Lang::Afr => "Afrikaans"@,
        Lang::Lat => "Latin"@,
        Lang::Slk => "Slovak"@,
        Lang::Cat => "Catalan"@,
        Lang::Tgl => "Tagalog"@,
        Lang::Hye => "Armenian"@,
    }
}

/// The script a language is normally written in.
pub open spec fn script_of(l: Lang) -> Script {
    match l {
        Lang::Epo => Script::Latin,
        Lang::Eng => Script::Latin,
        Lang::Rus => Script::Cyrillic,
        Lang::Cmn => Script::Mandarin,
        Lang::Spa => Script::Latin,
        Lang::Por => Script::Latin,
        Lang::Ita => Script::Latin,
        Lang::Ben => Script::Bengali,
        Lang::Fra => Script::Latin,
        Lang::Deu => Script::Latin,
        Lang::Ukr => Script::Cyrillic,
        Lang::Kat => Script::Georgian,
        Lang::Ara => Script::Arabic,
        Lang::Hin => Script::Devanagari,
        Lang::Jpn => Script::Hiragana,
        Lang::Heb => Script::Hebrew,
        Lang::Yid => Script::Hebrew,
        Lang::Pol => Script::Latin,
        Lang::Amh => Script::Ethiopic,
        Lang::Jav => Script::Latin,
        Lang::Kor => Script::Hangul,
        Lang::Nob => Script::Latin,
        Lang::Dan => Script::Latin,
        Lang::Swe => Script::Latin,
        Lang::Fin => Script::Latin,
        Lang::Tur => Script::Latin,
        Lang::Nld => Script::Latin,
        Lang::Hun => Script::Latin,
        Lang::Ces => Script::Latin,
        Lang::Ell => Script::Greek,
        Lang::Bul => Script::Cyrillic,
        Lang::Bel => Script::Cyrillic,
        Lang::Mar => Script::Devanagari,
        Lang::Kan => Script::Kannada,
        Lang::Ron => Script::Latin,
        Lang::Slv => Script::Latin,
        Lang::Hrv => Script::Latin,
        Lang::Srp => Script::Cyrillic,
        Lang::Mkd => Script::Cyrillic,
        Lang::Lit => Script::Latin,
        Lang::Lav => Script::Latin,
        Lang::Est => Script::Latin,
        Lang::Tam => Script::Tamil,
        Lang::Vie => Script::Latin,
        Lang::Urd => Script::Arabic,
        Lang::Tha => Script::Thai,
        Lang::Guj => Script::Gujarati,
        Lang::Uzb => Script::Latin,
        Lang::Pan => Script::Gurmukhi,
        Lang::Aze => Script::Latin,
        Lang::Ind => Script::Latin,
        Lang::Tel => Script::Telugu,
        Lang::Pes => Script::Arabic,
        Lang::Mal => Script::Malayalam,
        Lang::Ori => Script::Oriya,
        Lang::Mya => Script::Myanmar,
        Lang::Nep => Script::Devanagari,
        Lang::Sin => Script::Sinhala,
        Lang::Khm => Script::Khmer,
        Lang::Tuk => Script::Latin,
        Lang::Aka => Script::Latin,
        Lang::Zul => Script::Latin,
        Lang::Sna => Script::Latin,
        Lang::Afr => Script::Latin,
        Lang::Lat => Script::Latin,
        Lang::Slk => Script::Latin,
        Lang::Cat => Script::Latin,
        Lang::Tgl => Script::Latin,
        Lang::Hye => Script::Armenian,
    }
}

/// The language whose lower-case code is the three given characters.
pub open spec fn lang_of_chars(a: char, b: char, c: char) -> Option<Lang> {
    match (a, b, c) {
        ('e', 'p', 'o') => Some(Lang::Epo),
        ('e', 'n', 'g') => Some(Lang::Eng),
        ('r', 'u', 's') => Some(Lang::Rus),
        ('c', 'm', 'n') => Some(Lang::Cmn),
        ('s', 'p', 'a') => Some(Lang::Spa),
        ('p', 'o', 'r') => Some(Lang::Por),
        ('i', 't', 'a') => Some(Lang::Ita),
        ('b', 'e', 'n') => Some(Lang::Ben),
        ('f', 'r', 'a') => Some(Lang::Fra),
        ('d', 'e', 'u') => Some(Lang::Deu),
        ('u', 'k', 'r') => Some(Lang::Ukr),
        ('k', 'a', 't') => Some(Lang::Kat),
        ('a', 'r', 'a') => Some(Lang::Ara),
        ('h', 'i', 'n') => Some(Lang::Hin),
        ('j', 'p', 'n') => Some(Lang::Jpn),
        ('h', 'e', 'b') => Some(Lang::Heb),
        ('y', 'i', 'd') => Some(Lang::Yid),
        ('p', 'o', 'l') => Some(Lang::Pol),
        ('a', 'm', 'h') => Some(Lang::Amh),
        ('j', 'a', 'v') => Some(Lang::Jav),
        ('k', 'o', 'r') => Some(Lang::Kor),
        ('n', 'o', 'b') => Some(Lang::Nob),
        ('d', 'a', 'n') => Some(Lang::Dan),
        ('s', 'w', 'e') => Some(Lang::Swe),
        ('f', 'i', 'n') => Some(Lang::Fin),
        ('t', 'u', 'r') => Some(Lang::Tur),
        ('n', 'l', 'd') => Some(Lang::Nld),
        ('h', 'u', 'n') => Some(Lang::Hun),
        ('c', 'e', 's') => Some(Lang::Ces),
        ('e', 'l', 'l') => Some(Lang::Ell),
        ('b', 'u', 'l') => Some(Lang::Bul),
        ('b', 'e', 'l') => Some(Lang::Bel),
        ('m', 'a', 'r') => Some(Lang::Mar),
        ('k', 'a', 'n') => Some(Lang::Kan),
        ('r', 'o', 'n') => Some(Lang::Ron),
        ('s', 'l', 'v') => Some(Lang::Slv),
        ('h', 'r', 'v') => Some(Lang::Hrv),
        ('s', 'r', 'p') => Some(Lang::Srp),
        ('m', 'k', 'd') => Some(Lang::Mkd),
        ('l', 'i', 't') => Some(Lang::Lit),
        ('l', 'a', 'v') => Some(Lang::Lav),
        ('e', 's', 't') => Some(Lang::Est),
        ('t', 'a', 'm') => Some(Lang::Tam),
        ('v', 'i', 'e') => Some(Lang::Vie),
        ('u', 'r', 'd') => Some(Lang::Urd),
        ('t', 'h', 'a') => Some(Lang::Tha),
        ('g', 'u', 'j') => Some(Lang::Guj),
        ('u', 'z', 'b') => Some(Lang::Uzb),
        ('p', 'a', 'n') => Some(Lang::Pan),
        ('a', 'z', 'e') => Some(Lang::Aze),
        ('i', 'n', 'd') => Some(Lang::Ind),
        ('t', 'e', 'l') => Some(Lang::Tel),
        ('p', 'e', 's') => Some(Lang::Pes),
        ('m', 'a', 'l') => Some(Lang::Mal),
        ('o', 'r', 'i') => Some(Lang::Ori),
        ('m', 'y', 'a') => Some(Lang::Mya),
        ('n', 'e', 'p') => Some(Lang::Nep),
        ('s', 'i', 'n') => Some(Lang::Sin),
        ('k', 'h', 'm') => Some(Lang::Khm),
        ('t', 'u', 'k') => Some(Lang::Tuk),
        ('a', 'k', 'a') => Some(Lang::Aka),
        ('z', 'u', 'l') => Some(Lang::Zul),
        ('s', 'n', 'a') => Some(Lang::Sna),
        ('a', 'f', 'r') => Some(Lang::Afr),
        ('l', 'a', 't') => Some(Lang::Lat),
        ('s', 'l', 'k') => Some(Lang::Slk),
        ('c', 'a', 't') => Some(Lang::Cat),
        ('t', 'g', 'l') => Some(Lang::Tgl),
        ('h', 'y', 'e') => Some(Lang::Hye),
        _ => None,
    }
}

/// The language whose lower-case code is `s`, if any.
pub open spec fn lang_of_code(s: Seq<char>) -> Option<Lang> {
    if s.len() == 3 {
        lang_of_chars(s[0], s[1], s[2])
    } else {
        None
    }
}

/// The lower-case form of a character in the ASCII range; other characters are kept.
pub open spec fn ascii_lower_char(c: char) -> char {
    match c {
        'A' => 'a',
        'B' => 'b',
        'C' => 'c',
        'D' => 'd',
        'E' => 'e',
        'F' => 'f',
        'G' => 'g',
        'H' => 'h',
        'I' => 'i',
        'J' => 'j',
        'K' => 'k',
        'L' => 'l',
        'M' => 'm',
        'N' => 'n',
        'O' => 'o',
        'P' => 'p',
        'Q' => 'q',
        'R' => 'r',
        'S' => 's',
        'T' => 't',
        'U' => 'u',
        'V' => 'v',
        'W' => 'w',
        'X' => 'x',
        'Y' => 'y',
        'Z' => 'z',
        _ => c,
    }
}

/// Whether every character of `s` is in the ASCII range.
pub open spec fn is_ascii_chars(s: Seq<char>) -> bool {
    forall|i: int| 0 <= i < s.len() ==> (s[i] as u32) < 128
}

/// What `str::to_lowercase` returns for a string.
pub uninterp spec fn lower_of(s: Seq<char>) -> Seq<char>;

/// Relies on `str::to_lowercase`: the result depends on the characters alone, and
/// on ASCII text it lowers `A` to `Z` and keeps every other character.
#[verifier::external_body]
pub(crate) fn lowercase(s: &str) -> (r: String)
    ensures
        r@ == lower_of(s@),
        is_ascii_chars(s@) ==> r@ == s@.map_values(|c: char| ascii_lower_char(c)),
{
    s.to_lowercase()
}

impl Lang {
    /// Looks a language up by its ISO 639-3 code, in any letter case.
    pub fn from_code(code: &str) -> (r: Option<Lang>)
        ensures
            r == lang_of_code(lower_of(code@)),
            is_ascii_chars(code@) ==> r == lang_of_code(
                code@.map_values(|c: char| ascii_lower_char(c)),
            ),
    {
        let lower = lowercase(code);
        Self::from_lower_code(lower.as_str())
    }

    /// Looks a language up by its ISO 639-3 code, which must already be in lower case.
    pub fn from_lower_code(code: &str) -> (r: Option<Lang>)
        ensures
            r == lang_of_code(code@),
    {
        if code.unicode_len() != 3 {
            return None;
        }
        let a = code.get_char(0);
        let b = code.get_char(1);
        let c = code.get_char(2);
        match (a, b, c) {
            ('e', 'p', 'o') => Some(Lang::Epo),
            ('e', 'n', 'g') => Some(Lang::Eng),
            ('r', 'u', 's') => Some(Lang::Rus),
            ('c', 'm', 'n') => Some(Lang::Cmn),
            ('s', 'p', 'a') => Some(Lang::Spa),
            ('p', 'o', 'r') => Some(Lang::Por),
            ('i', 't', 'a') => Some(Lang::Ita),
            ('b', 'e', 'n') => Some(Lang::Ben),
            ('f', 'r', 'a') => Some(Lang::Fra),
            ('d', 'e', 'u') => Some(Lang::Deu),
            ('u', 'k', 'r') => Some(Lang::Ukr),
            ('k', 'a', 't') => Some(Lang::Kat),
            ('a', 'r', 'a') => Some(Lang::Ara),
            ('h', 'i', 'n') => Some(Lang::Hin),
            ('j', 'p', 'n') => Some(Lang::Jpn),
            ('h', 'e', 'b') => Some(Lang::Heb),
            ('y', 'i', 'd') => Some(Lang::Yid),
            ('p', 'o', 'l') => Some(Lang::Pol),
            ('a', 'm', 'h') => Some(Lang::Amh),
            ('j', 'a', 'v') => Some(Lang::Jav),
            ('k', 'o', 'r') => Some(Lang::Kor),
            ('n', 'o', 'b') => Some(Lang::Nob),
            ('d', 'a', 'n') => Some(Lang::Dan),
            ('s', 'w', 'e') => Some(Lang::Swe),
            ('f', 'i', 'n') => Some(Lang::Fin),
            ('t', 'u', 'r') => Some(Lang::Tur),
            ('n', 'l', 'd') => Some(Lang::Nld),
            ('h', 'u', 'n') => Some(Lang::Hun),
            ('c', 'e', 's') => Some(Lang::Ces),
            ('e', 'l', 'l') => Some(Lang::Ell),
            ('b', 'u', 'l') => Some(Lang::Bul),
            ('b', 'e', 'l') => Some(Lang::Bel),
            ('m', 'a', 'r') => Some(Lang::Mar),
            ('k', 'a', 'n') => Some(Lang::Kan),
            ('r', 'o', 'n') => Some(Lang::Ron),
            ('s', 'l', 'v') => Some(Lang::Slv),
            ('h', 'r', 'v') => Some(Lang::Hrv),
            ('s', 'r', 'p') => Some(Lang::Srp),
            ('m', 'k', 'd') => Some(Lang::Mkd),
            ('l', 'i', 't') => Some(Lang::Lit),
            ('l', 'a', 'v') => Some(Lang::Lav),
            ('e', 's', 't') => Some(Lang::Est),
            ('t', 'a', 'm') => Some(Lang::Tam),
            ('v', 'i', 'e') => Some(Lang::Vie),
            ('u', 'r', 'd') => Some(Lang::Urd),
            ('t', 'h', 'a') => Some(Lang::Tha),
            ('g', 'u', 'j') => Some(Lang::Guj),
            ('u', 'z', 'b') => Some(Lang::Uzb),
            ('p', 'a', 'n') => Some(Lang::Pan),
            ('a', 'z', 'e') => Some(Lang::Aze),
            ('i', 'n', 'd') => Some(Lang::Ind),
            ('t', 'e', 'l') => Some(Lang::Tel),
            ('p', 'e', 's') => Some(Lang::Pes),
            ('m', 'a', 'l') => Some(Lang::Mal),
            ('o', 'r', 'i') => Some(Lang::Ori),
            ('m', 'y', 'a') => Some(Lang::Mya),
            ('n', 'e', 'p') => Some(Lang::Nep),
            ('s', 'i', 'n') => Some(Lang::Sin),
            ('k', 'h', 'm') => Some(Lang::Khm),
            ('t', 'u', 'k') => Some(Lang::Tuk),
            ('a', 'k', 'a') => Some(Lang::Aka),
            ('z', 'u', 'l') => Some(Lang::Zul),
            ('s', 'n', 'a') => Some(Lang::Sna),
            ('a', 'f', 'r') => Some(Lang::Afr),
            ('l', 'a', 't') => Some(Lang::Lat),
            ('s', 'l', 'k') => Some(Lang::Slk),
            ('c', 'a', 't') => Some(Lang::Cat),
            ('t', 'g', 'l') => Some(Lang::Tgl),
            ('h', 'y', 'e') => Some(Lang::Hye),
            _ => None,
        }
    }

    /// The ISO 639-3 code of the language, in lower case.
    pub fn code(&self) -> (r: &str)
        ensures
            r@ == code_of(*self),
    {
        match self {
            Lang::Epo => {
                proof {
                    reveal_strlit("epo");
                }
                "epo"
            },
            Lang::Eng => {
                proof {
                    reveal_strlit("eng");
                }
                "eng"
            },
            Lang::Rus => {
                proof {
                    reveal_strlit("rus");
                }
                "rus"
            },
            Lang::Cmn => {
                proof {
                    reveal_strlit("cmn");
                }
                "cmn"
            },
            Lang::Spa => {
                proof {
                    reveal_strlit("spa");
                }
                "spa"
            },
            Lang::Por => {
                proof {
                    reveal_strlit("por");
                }
                "por"
            },
            Lang::Ita => {
                proof {
                    reveal_strlit("ita");
                }
                "ita"
            },
            Lang::Ben => {
                proof {
                    reveal_strlit("ben");
                }
                "ben"
            },
            Lang::Fra => {
                proof {
                    reveal_strlit("fra");
                }
                "fra"
            },
            Lang::Deu => {
                proof {
                    reveal_strlit("deu");
                }
                "deu"
            },
            Lang::Ukr => {
                proof {
                    reveal_strlit("ukr");
                }
                "ukr"
            },
            Lang::Kat => {
                proof {
                    reveal_strlit("kat");
                }
                "kat"
            },
            Lang::Ara => {
                proof {
                    reveal_strlit("ara");
                }
                "ara"
            },
            Lang::Hin => {
                proof {
                    reveal_strlit("hin");
                }
                "hin"
            },
            Lang::Jpn => {
                proof {
                    reveal_strlit("jpn");
                }
                "jpn"
            },
            Lang::Heb => {
                proof {
                    reveal_strlit("heb");
                }
                "heb"
            },
            Lang::Yid => {
                proof {
                    reveal_strlit("yid");
                }
                "yid"
            },
            Lang::Pol => {
                proof {
                    reveal_strlit("pol");
                }
                "pol"
            },
            Lang::Amh => {
                proof {
                    reveal_strlit("amh");
                }
                "amh"
            },
            Lang::Jav => {
                proof {
                    reveal_strlit("jav");
                }
                "jav"
            },
            Lang::Kor => {
                proof {
                    reveal_strlit("kor");
                }
                "kor"
            },
            Lang::Nob => {
                proof {
                    reveal_strlit("nob");
                }
                "nob"
            },
            Lang::Dan => {
                proof {
                    reveal_strlit("dan");
                }
                "dan"
            },
            Lang::Swe => {
                proof {
                    reveal_strlit("swe");
                }
                "swe"
            },
            Lang::Fin => {
                proof {
                    reveal_strlit("fin");
                }
                "fin"
            },
            Lang::Tur => {
                proof {
                    reveal_strlit("tur");
                }
                "tur"
            },
            Lang::Nld => {
                proof {
                    reveal_strlit("nld");
                }
                "nld"
            },
            Lang::Hun => {
                proof {
                    reveal_strlit("hun");
                }
                "hun"
            },
            Lang::Ces => {
                proof {
                    reveal_strlit("ces");
                }
                "ces"
            },
            Lang::Ell => {
                proof {
                    reveal_strlit("ell");
                }
                "ell"
            },
            Lang::Bul => {
                proof {
                    reveal_strlit("bul");
                }
                "bul"
            },
            Lang::Bel => {
                proof {
                    reveal_strlit("bel");
                }
                "bel"
            },
            Lang::Mar => {
                proof {
                    reveal_strlit("mar");
                }
                "mar"
            },
            Lang::Kan => {
                proof {
                    reveal_strlit("kan");
                }
                "kan"
            },
            Lang::Ron => {
                proof {
                    reveal_strlit("ron");
                }
                "ron"
            },
            Lang::Slv => {
                proof {
                    reveal_strlit("slv");
                }
                "slv"
            },
            Lang::Hrv => {
                proof {
                    reveal_strlit("hrv");
                }
                "hrv"
            },
            Lang::Srp => {
                proof {
                    reveal_strlit("srp");
                }
                "srp"
            },
            Lang::Mkd => {
                proof {
                    reveal_strlit("mkd");
                }
                "mkd"
            },
            Lang::Lit => {
                proof {
                    reveal_strlit("lit");
                }
                "lit"
            },
            Lang::Lav => {
                proof {
                    reveal_strlit("lav");
                }
                "lav"
            },
            Lang::Est => {
                proof {
                    reveal_strlit("est");
                }
                "est"
            },
            Lang::Tam => {
                proof {
                    reveal_strlit("tam");
                }
                "tam"
            },
            Lang::Vie => {
                proof {
                    reveal_strlit("vie");
                }
                "vie"
            },
            Lang::Urd => {
                proof {
                    reveal_strlit("urd");
                }
                "urd"
            },
            Lang::Tha => {
                proof {
                    reveal_strlit("tha");
                }
                "tha"
            },
            Lang::Guj => {
                proof {
                    reveal_strlit("guj");
                }
                "guj"
            },
            Lang::Uzb => {
                proof {
                    reveal_strlit("uzb");
                }
                "uzb"
            },
            Lang::Pan => {
                proof {
                    reveal_strlit("pan");
                }
                "pan"
            },
            Lang::Aze => {
                proof {
                    reveal_strlit("aze");
                }
                "aze"
            },
            Lang::Ind => {
                proof {
                    reveal_strlit("ind");
                }
                "ind"
            },
            Lang::Tel => {
                proof {
                    reveal_strlit("tel");
                }
                "tel"
            },
            Lang::Pes => {
                proof {
                    reveal_strlit("pes");
                }
                "pes"
            },
            Lang::Mal => {
                proof {
                    reveal_strlit("mal");
                }
                "mal"
            },
            Lang::Ori => {
                proof {
                    reveal_strlit("ori");
                }
                "ori"
            },
            Lang::Mya => {
                proof {
                    reveal_strlit("mya");
                }
                "mya"
            },
            Lang::Nep => {
                proof {
                    reveal_strlit("nep");
                }
                "nep"
            },
            Lang::Sin => {
                proof {
                    reveal_strlit("sin");
                }
                "sin"
            },
            Lang::Khm => {
                proof {
                    reveal_strlit("khm");
                }
                "khm"
            },
            Lang::Tuk => {
                proof {
                    reveal_strlit("tuk");
                }
                "tuk"
            },
            Lang::Aka => {
                proof {
                    reveal_strlit("aka");
                }
                "aka"
            },
            Lang::Zul => {
                proof {
                    reveal_strlit("zul");
                }
                "zul"
            },
            Lang::Sna => {
                proof {
                    reveal_strlit("sna");
                }
                "sna"
            },
            Lang::Afr => {
                proof {
                    reveal_strlit("afr");
                }
                "afr"
            },
            Lang::Lat => {
                proof {
                    reveal_strlit("lat");
                }
                "lat"
            },
            Lang::Slk => {
                proof {
                    reveal_strlit("slk");
                }
                "slk"
            },
            Lang::Cat => {
                proof {
                    reveal_strlit("cat");
                }
                "cat"
            },
            Lang::Tgl => {
                proof {
                    reveal_strlit("tgl");
                }
                "tgl"
            },
            Lang::Hye => {
                proof {
                    reveal_strlit("hye");
                }
                "hye"
            },
        }
    }

    /// The name of the language in the language itself.
    pub fn name(self) -> (r: &'static str)
        ensures
            r@ == name_of(self),
    {
        match self {
            Lang::Epo => "Esperanto",
            Lang::Eng => "English",
            Lang::Rus => "Русский",
            Lang::Cmn => "普通话",
            Lang::Spa => "Español",
            Lang::Por => "Português",
            Lang::Ita => "Italiano",
            Lang::Ben => "বাংলা",
            Lang::Fra => "Français",
            Lang::Deu => "Deutsch",
            Lang::Ukr => "Українська",
            Lang::Kat => "ქართული",
            Lang::Ara => "العربية",
            Lang::Hin => "हिन्दी",
            Lang::Jpn => "日本語",
            Lang::Heb => "עברית",
            Lang::Yid => "ייִדיש",
            Lang::Pol => "Polski",
            Lang::Amh => "አማርኛ",
            Lang::Jav => "Basa Jawa",
            Lang::Kor => "한국어",
            Lang::Nob => "Bokmål",
            Lang::Dan => "Dansk",
            Lang::Swe => "Svenska",
            Lang::Fin => "Suomi",
            Lang::Tur => "Türkçe",
            Lang::Nld => "Nederlands",
            Lang::Hun => "Magyar",
            Lang::Ces => "Čeština",
            Lang::Ell => "Ελληνικά",
            Lang::Bul => "Български",
            Lang::Bel => "Беларуская",
            Lang::Mar => "मराठी",
            Lang::Kan => "ಕನ್ನಡ",
            Lang::Ron => "Română",
            Lang::Slv => "Slovenščina",
            Lang::Hrv => "Hrvatski",
            Lang::Srp => "Српски",
            Lang::Mkd => "Македонски",
            Lang::Lit => "Lietuvių",
            Lang::Lav => "Latviešu",
            Lang::Est => "Eesti",
            Lang::Tam => "தமிழ்",
            Lang::Vie => "Tiếng Việt",
            Lang::Urd => "اُردُو",
            Lang::Tha => "ภาษาไทย",
            Lang::Guj => "ગુજરાતી",
            Lang::Uzb => "Oʻzbekcha",
            Lang::Pan => "ਪੰਜਾਬੀ",
            Lang::Aze => "Azərbaycanca",
            Lang::Ind => "Bahasa Indonesia",
            Lang::Tel => "తెలుగు",
            Lang::Pes => "فارسی",
            Lang::Mal => "മലയാളം",
            Lang::Ori => "ଓଡ଼ିଆ",
            Lang::Mya => "မြန်မာ",
            Lang::Nep => "नेपाली",
            Lang::Sin => "සිංහල",
            Lang::Khm => "ភាសាខ្មែរ",
            Lang::Tuk => "Türkmençe",
            Lang::Aka => "Akan",
            Lang::Zul => "IsiZulu",
            Lang::Sna => "ChiShona",
            Lang::Afr => "Afrikaans",
            Lang::Lat => "Lingua Latina",
            Lang::Slk => "Slovenčina",
            Lang::Cat => "Català",
            Lang::Tgl => "Tagalog",
            Lang::Hye => "Հայերեն",
        }
    }

    /// The name of the language in English.
    pub fn eng_name(self) -> (r: &'static str)
        ensures
            r@ == eng_name_of(self),
    {
        match self {
            Lang::Epo => "Esperanto",
            Lang::Eng => "English",
            Lang::Rus => "Russian",
            Lang::Cmn => "Mandarin",
            Lang::Spa => "Spanish",
            Lang::Por => "Portuguese",
            Lang::Ita => "Italian",
            Lang::Ben => "Bengali",
            Lang::Fra => "French",
            Lang::Deu => "German",
            Lang::Ukr => "Ukrainian",
            Lang::Kat => "Georgian",
            Lang::Ara => "Arabic",
            Lang::Hin => "Hindi",
            Lang::Jpn => "Japanese",
            Lang::Heb => "Hebrew",
            Lang::Yid => "Yiddish",
            Lang::Pol => "Polish",
            Lang::Amh => "Amharic",
            Lang::Jav => "Javanese",
            Lang::Kor => "Korean",
            Lang::Nob => "Bokmal",
            Lang::Dan => "Danish",
            Lang::Swe => "Swedish",
            Lang::Fin => "Finnish",
            Lang::Tur => "Turkish",
            Lang::Nld => "Dutch",
            Lang::Hun => "Hungarian",
            Lang::Ces => "Czech",
            Lang::Ell => "Greek",
            Lang::Bul => "Bulgarian",
            Lang::Bel => "Belarusian",
            Lang::Mar => "Marathi",
            Lang::Kan => "Kannada",
            Lang::Ron => "Romanian",
            Lang::Slv => "Slovene",
            Lang::Hrv => "Croatian",
            Lang::Srp => "Serbian",
            Lang::Mkd => "Macedonian",
            Lang::Lit => "Lithuanian",
            Lang::Lav => "Latvian",
            Lang::Est => "Estonian",
            Lang::Tam => "Tamil",
            Lang::Vie => "Vietnamese",
            Lang::Urd => "Urdu",
            Lang::Tha => "Thai",
            Lang::Guj => "Gujarati",
            Lang::Uzb => "Uzbek",
            Lang::Pan => "Punjabi",
            Lang::Aze => "Azerbaijani",
            Lang::Ind => "Indonesian",
            Lang::Tel => "Telugu",
            Lang::Pes => "Persian",
            Lang::Mal => "Malayalam",
            Lang::Ori => "Oriya",
            Lang::Mya => "Burmese",
            Lang::Nep => "Nepali",
            Lang::Sin => "Sinhalese",
            Lang::Khm => "Khmer",
            Lang::Tuk => "Turkmen",
            Lang::Aka => "Akan",
            Lang::Zul => "Zulu",
            Lang::Sna => "Shona",
            Lang::Afr => "Afrikaans",
            Lang::Lat => "Latin",
            Lang::Slk => "Slovak",
            Lang::Cat => "Catalan",
            Lang::Tgl => "Tagalog",
            Lang::Hye => "Armenian",
        }
    }

    /// The script the language is normally written in.
    pub fn script(self) -> (r: Script)
        ensures
            r == script_of(self),
    {
        match self {
            Lang::Epo => Script::Latin,
            Lang::Eng => Script::Latin,
            Lang::Rus => Script::Cyrillic,
            Lang::Cmn => Script::Mandarin,
            Lang::Spa => Script::Latin,
            Lang::Por => Script::Latin,
            Lang::Ita => Script::Latin,
            Lang::Ben => Script::Bengali,
            Lang::Fra => Script::Latin,
            Lang::Deu => Script::Latin,
            Lang::Ukr => Script::Cyrillic,
            Lang::Kat => Script::Georgian,
            Lang::Ara => Script::Arabic,
            Lang::Hin => Script::Devanagari,
            Lang::Jpn => Script::Hiragana,
            Lang::Heb => Script::Hebrew,
            Lang::Yid => Script::Hebrew,
            Lang::Pol => Script::Latin,
            Lang::Amh => Script::Ethiopic,
            Lang::Jav => Script::Latin,
            Lang::Kor => Script::Hangul,
            Lang::Nob => Script::Latin,
            Lang::Dan => Script::Latin,
            Lang::Swe => Script::Latin,
            Lang::Fin => Script::Latin,
            Lang::Tur => Script::Latin,
            Lang::Nld => Script::Latin,
            Lang::Hun => Script::Latin,
            Lang::Ces => Script::Latin,
            Lang::Ell => Script::Greek,
            Lang::Bul => Script::Cyrillic,
            Lang::Bel => Script::Cyrillic,
            Lang::Mar => Script::Devanagari,
            Lang::Kan => Script::Kannada,
            Lang::Ron => Script::Latin,
            Lang::Slv => Script::Latin,
            Lang::Hrv => Script::Latin,
            Lang::Srp => Script::Cyrillic,
            Lang::Mkd => Script::Cyrillic,
            Lang::Lit => Script::Latin,
            Lang::Lav => Script::Latin,
            Lang::Est => Script::Latin,
            Lang::Tam => Script::Tamil,
            Lang::Vie => Script::Latin,
            Lang::Urd => Script::Arabic,
            Lang::Tha => Script::Thai,
            Lang::Guj => Script::Gujarati,
            Lang::Uzb => Script::Latin,
            Lang::Pan => Script::Gurmukhi,
            Lang::Aze => Script::Latin,
            Lang::Ind => Script::Latin,
            Lang::Tel => Script::Telugu,
            Lang::Pes => Script::Arabic,
            Lang::Mal => Script::Malayalam,
            Lang::Ori => Script::Oriya,
            Lang::Mya => Script::Myanmar,
            Lang::Nep => Script::Devanagari,
            Lang::Sin => Script::Sinhala,
            Lang::Khm => Script::Khmer,
            Lang::Tuk => Script::Latin,
            Lang::Aka => Script::Latin,
            Lang::Zul => Script::Latin,
            Lang::Sna => Script::Latin,
            Lang::Afr => Script::Latin,
            Lang::Lat => Script::Latin,
            Lang::Slk => Script::Latin,
            Lang::Cat => Script::Latin,
            Lang::Tgl => Script::Latin,
            Lang::Hye => Script::Armenian,
        }
    }

    /// Every supported language, in declaration order.
    pub fn all() -> (r: Vec<Lang>)
        ensures
            r@ == all_langs(),
    {
        vec![Lang::Epo, Lang::Eng, Lang::Rus, Lang::Cmn, Lang::Spa, Lang::Por, Lang::Ita, Lang::Ben, Lang::Fra, Lang::Deu, Lang::Ukr, Lang::Kat, Lang::Ara, Lang::Hin, Lang::Jpn, Lang::Heb, Lang::Yid, Lang::Pol, Lang::Amh, Lang::Jav, Lang::Kor, Lang::Nob, Lang::Dan, Lang::Swe, Lang::Fin, Lang::Tur, Lang::Nld, Lang::Hun, Lang::Ces, Lang::Ell, Lang::Bul, Lang::Bel, Lang::Mar, Lang::Kan, Lang::Ron, Lang::Slv, Lang::Hrv, Lang::Srp, Lang::Mkd, Lang::Lit, Lang::Lav, Lang::Est, Lang::Tam, Lang::Vie, Lang::Urd, Lang::Tha, Lang::Guj, Lang::Uzb, Lang::Pan, Lang::Aze, Lang::Ind, Lang::Tel, Lang::Pes, Lang::Mal, Lang::Ori, Lang::Mya, Lang::Nep, Lang::Sin, Lang::Khm, Lang::Tuk, Lang::Aka, Lang::Zul, Lang::Sna, Lang::Afr, Lang::Lat, Lang::Slk, Lang::Cat, Lang::Tgl, Lang::Hye]
    }
}

/// The lookup by code undoes `code`: for every language, the lower-case code is
/// plain ASCII, lowering it changes nothing, and it leads back to the language.
pub proof fn lemma_code_round_trip(l: Lang)
    ensures
        is_ascii_chars(code_of(l)),
        code_of(l).map_values(|c: char| ascii_lower_char(c)) == code_of(l),
        lang_of_code(code_of(l)) == Some(l),
{
    assert(code_of(l).map_values(|c: char| ascii_lower_char(c)) =~= code_of(l));
}

} // verus!

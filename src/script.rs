use crate::lang::Lang;
use vstd::prelude::*;

verus! {

/// A writing system. The order of the variants is the tie-break order used when
/// two scripts are equally common in a text.
#[derive(Clone, Copy, Debug, PartialEq, Eq, Hash, Structural)]
pub enum Script {
    Latin,
    Cyrillic,
    Arabic,
    Devanagari,
    Hiragana,
    Katakana,
    Ethiopic,
    Hebrew,
    Bengali,
    Georgian,
    Mandarin,
    Hangul,
    Greek,
    Kannada,
    Tamil,
    Thai,
    Gujarati,
    Gurmukhi,
    Telugu,
    Malayalam,
    Oriya,
    Myanmar,
    Sinhala,
    Khmer,
    Armenian,
}

/// The number of scripts.
pub const SCRIPT_COUNT: usize = 25;

/// Every script, in declaration order.
pub open spec fn all_scripts() -> Seq<Script> {
    seq![
        Script::Latin, Script::Cyrillic, Script::Arabic, Script::Devanagari, Script::Hiragana,
        Script::Katakana, Script::Ethiopic, Script::Hebrew, Script::Bengali, Script::Georgian,
        Script::Mandarin, Script::Hangul, Script::Greek, Script::Kannada, Script::Tamil,
        Script::Thai, Script::Gujarati, Script::Gurmukhi, Script::Telugu, Script::Malayalam,
        Script::Oriya, Script::Myanmar, Script::Sinhala, Script::Khmer, Script::Armenian,
    ]
}

/// The language a script determines on its own, for a script written by a single
/// supported language; `None` for a script that several languages share.
pub open spec fn direct_lang_of(s: Script) -> Option<Lang> {
    match s {
        Script::Latin | Script::Cyrillic | Script::Arabic | Script::Devanagari
        | Script::Hebrew => None,
        Script::Hiragana | Script::Katakana => Some(Lang::Jpn),
        Script::Ethiopic => Some(Lang::Amh),
        Script::Bengali => Some(Lang::Ben),
        Script::Georgian => Some(Lang::Kat),
        Script::Mandarin => Some(Lang::Cmn),
        Script::Hangul => Some(Lang::Kor),
        Script::Greek => Some(Lang::Ell),
        Script::Kannada => Some(Lang::Kan),
        Script::Tamil => Some(Lang::Tam),
        Script::Thai => Some(Lang::Tha),
        Script::Gujarati => Some(Lang::Guj),
        Script::Gurmukhi => Some(Lang::Pan),
        Script::Telugu => Some(Lang::Tel),
        Script::Malayalam => Some(Lang::Mal),
        Script::Oriya => Some(Lang::Ori),
        Script::Myanmar => Some(Lang::Mya),
        Script::Sinhala => Some(Lang::Sin),
        Script::Khmer => Some(Lang::Khm),
        Script::Armenian => Some(Lang::Hye),
    }
}

/// The script of a code point, if it belongs to one of the supported scripts.
pub open spec fn script_of_code(u: u32) -> Option<Script> {
    if (0x41 <= u && u <= 0x5A) || (0x61 <= u && u <= 0x7A) || (0xC0 <= u && u <= 0xD6) || (0xD8 <= u && u <= 0xF6) || (0xF8 <= u && u <= 0x24F) || (0x1E00 <= u && u <= 0x1EFF) {
        Some(Script::Latin)
    } else if (0x400 <= u && u <= 0x52F) || (0x1C80 <= u && u <= 0x1C8F) || (0x2DE0 <= u && u <= 0x2DFF) || (0xA640 <= u && u <= 0xA69F) {
        Some(Script::Cyrillic)
    } else if (0x600 <= u && u <= 0x6FF) || (0x750 <= u && u <= 0x7FF) || (0x8A0 <= u && u <= 0x8FF) || (0xFB50 <= u && u <= 0xFDFF) || (0xFE70 <= u && u <= 0xFEFF) {
        Some(Script::Arabic)
    } else if (0x900 <= u && u <= 0x97F) || (0xA8E0 <= u && u <= 0xA8FF) {
        Some(Script::Devanagari)
    } else if (0x3040 <= u && u <= 0x309F) {
        Some(Script::Hiragana)
    } else if (0x30A0 <= u && u <= 0x30FF) {
        Some(Script::Katakana)
    } else if (0x1200 <= u && u <= 0x139F) || (0x2D80 <= u && u <= 0x2DDF) || (0xAB00 <= u && u <= 0xAB2F) {
        Some(Script::Ethiopic)
    } else if (0x590 <= u && u <= 0x5FF) {
        Some(Script::Hebrew)
    } else if (0x980 <= u && u <= 0x9FF) {
        Some(Script::Bengali)
    } else if (0x10A0 <= u && u <= 0x10FF) || (0x2D00 <= u && u <= 0x2D2F) {
        Some(Script::Georgian)
    } else if (0x2E80 <= u && u <= 0x2FDF) || (0x3400 <= u && u <= 0x4DBF) || (0x4E00 <= u && u <= 0x9FFF) || (0xF900 <= u && u <= 0xFAFF) {
        Some(Script::Mandarin)
    } else if (0x1100 <= u && u <= 0x11FF) || (0x3130 <= u && u <= 0x318F) || (0xAC00 <= u && u <= 0xD7AF) {
        Some(Script::Hangul)
    } else if (0x370 <= u && u <= 0x3FF) || (0x1F00 <= u && u <= 0x1FFF) {
        Some(Script::Greek)
    } else if (0xC80 <= u && u <= 0xCFF) {
        Some(Script::Kannada)
    } else if (0xB80 <= u && u <= 0xBFF) {
        Some(Script::Tamil)
    } else if (0xE00 <= u && u <= 0xE7F) {
        Some(Script::Thai)
    } else if (0xA80 <= u && u <= 0xAFF) {
        Some(Script::Gujarati)
    } else if (0xA00 <= u && u <= 0xA7F) {
        Some(Script::Gurmukhi)
    } else if (0xC00 <= u && u <= 0xC7F) {
        Some(Script::Telugu)
    } else if (0xD00 <= u && u <= 0xD7F) {
        Some(Script::Malayalam)
    } else if (0xB00 <= u && u <= 0xB7F) {
        Some(Script::Oriya)
    } else if (0x1000 <= u && u <= 0x109F) {
        Some(Script::Myanmar)
    } else if (0xD80 <= u && u <= 0xDFF) {
        Some(Script::Sinhala)
    } else if (0x1780 <= u && u <= 0x17FF) || (0x19E0 <= u && u <= 0x19FF) {
        Some(Script::Khmer)
    } else if (0x530 <= u && u <= 0x58F) {
        Some(Script::Armenian)
    } else {
        None
    }
}

/// The position of a script in declaration order.
pub open spec fn script_index(s: Script) -> int {
    match s {
        Script::Latin => 0,
        Script::Cyrillic => 1,
        Script::Arabic => 2,
        Script::Devanagari => 3,
        Script::Hiragana => 4,
        Script::Katakana => 5,
        Script::Ethiopic => 6,
        Script::Hebrew => 7,
        Script::Bengali => 8,
        Script::Georgian => 9,
        Script::Mandarin => 10,
        Script::Hangul => 11,
        Script::Greek => 12,
        Script::Kannada => 13,
        Script::Tamil => 14,
        Script::Thai => 15,
        Script::Gujarati => 16,
        Script::Gurmukhi => 17,
        Script::Telugu => 18,
        Script::Malayalam => 19,
        Script::Oriya => 20,
        Script::Myanmar => 21,
        Script::Sinhala => 22,
        Script::Khmer => 23,
        Script::Armenian => 24,
    }
}

impl Script {
    /// The script a character belongs to, if any supported script has it.
    pub fn of_char(c: char) -> (r: Option<Script>)
        ensures
            r == script_of_code(c as u32),
    {
        let u = c as u32;
        if (0x41 <= u && u <= 0x5A) || (0x61 <= u && u <= 0x7A) || (0xC0 <= u && u <= 0xD6) || (0xD8 <= u && u <= 0xF6) || (0xF8 <= u && u <= 0x24F) || (0x1E00 <= u && u <= 0x1EFF) {
            Some(Script::Latin)
        } else if (0x400 <= u && u <= 0x52F) || (0x1C80 <= u && u <= 0x1C8F) || (0x2DE0 <= u && u <= 0x2DFF) || (0xA640 <= u && u <= 0xA69F) {
            Some(Script::Cyrillic)
        } else if (0x600 <= u && u <= 0x6FF) || (0x750 <= u && u <= 0x7FF) || (0x8A0 <= u && u <= 0x8FF) || (0xFB50 <= u && u <= 0xFDFF) || (0xFE70 <= u && u <= 0xFEFF) {
            Some(Script::Arabic)
        } else if (0x900 <= u && u <= 0x97F) || (0xA8E0 <= u && u <= 0xA8FF) {
            Some(Script::Devanagari)
        } else if (0x3040 <= u && u <= 0x309F) {
            Some(Script::Hiragana)
        } else if (0x30A0 <= u && u <= 0x30FF) {
            Some(Script::Katakana)
        } else if (0x1200 <= u && u <= 0x139F) || (0x2D80 <= u && u <= 0x2DDF) || (0xAB00 <= u && u <= 0xAB2F) {
            Some(Script::Ethiopic)
        } else if (0x590 <= u && u <= 0x5FF) {
            Some(Script::Hebrew)
        } else if (0x980 <= u && u <= 0x9FF) {
            Some(Script::Bengali)
        } else if (0x10A0 <= u && u <= 0x10FF) || (0x2D00 <= u && u <= 0x2D2F) {
            Some(Script::Georgian)
        } else if (0x2E80 <= u && u <= 0x2FDF) || (0x3400 <= u && u <= 0x4DBF) || (0x4E00 <= u && u <= 0x9FFF) || (0xF900 <= u && u <= 0xFAFF) {
            Some(Script::Mandarin)
        } else if (0x1100 <= u && u <= 0x11FF) || (0x3130 <= u && u <= 0x318F) || (0xAC00 <= u && u <= 0xD7AF) {
            Some(Script::Hangul)
        } else if (0x370 <= u && u <= 0x3FF) || (0x1F00 <= u && u <= 0x1FFF) {
            Some(Script::Greek)
        } else if (0xC80 <= u && u <= 0xCFF) {
            Some(Script::Kannada)
        } else if (0xB80 <= u && u <= 0xBFF) {
            Some(Script::Tamil)
        } else if (0xE00 <= u && u <= 0xE7F) {
            Some(Script::Thai)
        } else if (0xA80 <= u && u <= 0xAFF) {
            Some(Script::Gujarati)
        } else if (0xA00 <= u && u <= 0xA7F) {
            Some(Script::Gurmukhi)
        } else if (0xC00 <= u && u <= 0xC7F) {
            Some(Script::Telugu)
        } else if (0xD00 <= u && u <= 0xD7F) {
            Some(Script::Malayalam)
        } else if (0xB00 <= u && u <= 0xB7F) {
            Some(Script::Oriya)
        } else if (0x1000 <= u && u <= 0x109F) {
            Some(Script::Myanmar)
        } else if (0xD80 <= u && u <= 0xDFF) {
            Some(Script::Sinhala)
        } else if (0x1780 <= u && u <= 0x17FF) || (0x19E0 <= u && u <= 0x19FF) {
            Some(Script::Khmer)
        } else if (0x530 <= u && u <= 0x58F) {
            Some(Script::Armenian)
        } else {
            None
        }
    }

    /// The position of the script in declaration order.
    pub fn index(self) -> (r: usize)
        ensures
            r < SCRIPT_COUNT,
            r == script_index(self),
            all_scripts()[r as int] == self,
    {
        match self {
            Script::Latin => 0,
            Script::Cyrillic => 1,
            Script::Arabic => 2,
            Script::Devanagari => 3,
            Script::Hiragana => 4,
            Script::Katakana => 5,
            Script::Ethiopic => 6,
            Script::Hebrew => 7,
            Script::Bengali => 8,
            Script::Georgian => 9,
            Script::Mandarin => 10,
            Script::Hangul => 11,
            Script::Greek => 12,
            Script::Kannada => 13,
            Script::Tamil => 14,
            Script::Thai => 15,
            Script::Gujarati => 16,
            Script::Gurmukhi => 17,
            Script::Telugu => 18,
            Script::Malayalam => 19,
            Script::Oriya => 20,
            Script::Myanmar => 21,
            Script::Sinhala => 22,
            Script::Khmer => 23,
            Script::Armenian => 24,
        }
    }

    /// The script at a position in declaration order.
    pub fn from_index(i: usize) -> (r: Script)
        requires
            i < SCRIPT_COUNT,
        ensures
            r == all_scripts()[i as int],
    {
        let all = [
            Script::Latin, Script::Cyrillic, Script::Arabic, Script::Devanagari, Script::Hiragana,
            Script::Katakana, Script::Ethiopic, Script::Hebrew, Script::Bengali, Script::Georgian,
            Script::Mandarin, Script::Hangul, Script::Greek, Script::Kannada, Script::Tamil,
            Script::Thai, Script::Gujarati, Script::Gurmukhi, Script::Telugu, Script::Malayalam,
            Script::Oriya, Script::Myanmar, Script::Sinhala, Script::Khmer, Script::Armenian,
        ];
        assert(all@ =~= all_scripts());
        all[i]
    }

    /// The language the script determines on its own, if it is written by a single
    /// supported language.
    pub fn direct_lang(self) -> (r: Option<Lang>)
        ensures
            r == direct_lang_of(self),
    {
        match self {
            Script::Latin | Script::Cyrillic | Script::Arabic | Script::Devanagari
            | Script::Hebrew => None,
            Script::Hiragana | Script::Katakana => Some(Lang::Jpn),
            Script::Ethiopic => Some(Lang::Amh),
            Script::Bengali => Some(Lang::Ben),
            Script::Georgian => Some(Lang::Kat),
            Script::Mandarin => Some(Lang::Cmn),
            Script::Hangul => Some(Lang::Kor),
            Script::Greek => Some(Lang::Ell),
            Script::Kannada => Some(Lang::Kan),
            Script::Tamil => Some(Lang::Tam),
            Script::Thai => Some(Lang::Tha),
            Script::Gujarati => Some(Lang::Guj),
            Script::Gurmukhi => Some(Lang::Pan),
            Script::Telugu => Some(Lang::Tel),
            Script::Malayalam => Some(Lang::Mal),
            Script::Oriya => Some(Lang::Ori),
            Script::Myanmar => Some(Lang::Mya),
            Script::Sinhala => Some(Lang::Sin),
            Script::Khmer => Some(Lang::Khm),
            Script::Armenian => Some(Lang::Hye),
        }
    }
}

/// A script's position is within range and leads back to the script.
pub proof fn lemma_script_index(s: Script)
    ensures
        0 <= script_index(s) < SCRIPT_COUNT,
        all_scripts()[script_index(s)] == s,
{
}

} // verus!

use whatlang::lang::Lang;
use whatlang::script::Script;

#[test]
fn test_from_code() {
    assert_eq!(Lang::from_code(&"rus".to_string()), Some(Lang::Rus));
    assert_eq!(Lang::from_code("ukr"), Some(Lang::Ukr));
    assert_eq!(Lang::from_code("ENG"), Some(Lang::Eng));
    assert_eq!(Lang::from_code("oops"), None);
}

#[test]
fn test_code() {
    assert_eq!(Lang::Spa.code(), "spa");
}

#[test]
fn test_name() {
    assert_eq!(Lang::Rus.name(), "Русский");
    assert_eq!(Lang::Spa.name(), "Español");
    assert_eq!(Lang::Epo.name(), "Esperanto");
}

#[test]
fn test_eng_name() {
    assert_eq!(Lang::Spa.eng_name(), "Spanish");
    assert_eq!(Lang::Epo.eng_name(), "Esperanto");
    assert_eq!(Lang::Rus.eng_name(), "Russian");
}

#[test]
fn code_round_trip_for_every_language() {
    let all = Lang::all();
    assert_eq!(all.len(), 69);
    for lang in all {
        assert_eq!(Lang::from_code(lang.code()), Some(lang));
        assert_eq!(Lang::from_code(&lang.code().to_uppercase()), Some(lang));
    }
}

#[test]
fn from_code_mixed_case_and_wrong_lengths() {
    assert_eq!(Lang::from_code("Deu"), Some(Lang::Deu));
    assert_eq!(Lang::from_code(""), None);
    assert_eq!(Lang::from_code("en"), None);
    assert_eq!(Lang::from_code("engl"), None);
    assert_eq!(Lang::from_lower_code("ENG"), None);
    assert_eq!(Lang::from_lower_code("eng"), Some(Lang::Eng));
}

#[test]
fn language_scripts() {
    assert_eq!(Lang::Rus.script(), Script::Cyrillic);
    assert_eq!(Lang::Fra.script(), Script::Latin);
    assert_eq!(Lang::Heb.script(), Script::Hebrew);
    assert_eq!(Lang::Jpn.script(), Script::Hiragana);
}

#[test]
fn direct_languages_of_scripts() {
    assert_eq!(Script::Greek.direct_lang(), Some(Lang::Ell));
    assert_eq!(Script::Katakana.direct_lang(), Some(Lang::Jpn));
    assert_eq!(Script::Latin.direct_lang(), None);
    assert_eq!(Script::Cyrillic.direct_lang(), None);
}

#[test]
fn script_of_characters() {
    assert_eq!(Script::of_char('a'), Some(Script::Latin));
    assert_eq!(Script::of_char('é'), Some(Script::Latin));
    assert_eq!(Script::of_char('ж'), Some(Script::Cyrillic));
    assert_eq!(Script::of_char('α'), Some(Script::Greek));
    assert_eq!(Script::of_char('1'), None);
    assert_eq!(Script::of_char('!'), None);
    assert_eq!(Script::Latin.index(), 0);
    assert_eq!(Script::from_index(1), Script::Cyrillic);
}

use vauchi_gtk::locale::{detect_locale_from, language_code, locale_variables};

/// The locales the tests know, standing in for the app's locale table.
#[derive(Clone, Copy, Debug, PartialEq, Eq)]
enum Locale {
    English,
    German,
    French,
    Spanish,
    Italian,
}

fn from_code(code: &str) -> Option<Locale> {
    match code {
        "en" => Some(Locale::English),
        "de" => Some(Locale::German),
        "fr" => Some(Locale::French),
        "es" => Some(Locale::Spanish),
        "it" => Some(Locale::Italian),
        _ => None,
    }
}

fn detect_test_locale(values: &[(&str, &str)]) -> Locale {
    let ordered = locale_variables()
        .into_iter()
        .map(|name| {
            values
                .iter()
                .find(|(key, _)| *key == name)
                .map(|(_, value)| (*value).to_string())
        })
        .collect::<Vec<_>>();
    detect_locale_from(&ordered, from_code, Locale::English)
}

#[test]
fn lc_all_takes_precedence_over_lang() {
    assert_eq!(
        detect_test_locale(&[("LC_ALL", "de_DE.UTF-8"), ("LANG", "fr_FR.UTF-8")]),
        Locale::German
    );
}

#[test]
fn lc_messages_used_when_lc_all_unset() {
    assert_eq!(
        detect_test_locale(&[("LC_MESSAGES", "es_ES.UTF-8"), ("LANG", "it_IT.UTF-8")]),
        Locale::Spanish
    );
}

#[test]
fn lang_used_when_no_lc_var_set() {
    assert_eq!(
        detect_test_locale(&[("LANG", "it_CH.UTF-8")]),
        Locale::Italian
    );
}

#[test]
fn c_locale_falls_back_to_default() {
    assert_eq!(detect_test_locale(&[("LC_ALL", "C")]), Locale::English);
}

#[test]
fn posix_locale_falls_back_to_default() {
    assert_eq!(
        detect_test_locale(&[("LC_MESSAGES", "POSIX")]),
        Locale::English
    );
}

#[test]
fn no_env_vars_returns_default() {
    assert_eq!(detect_test_locale(&[]), Locale::English);
}

#[test]
fn unknown_language_falls_back_to_default() {
    assert_eq!(
        detect_test_locale(&[("LANG", "zz_ZZ.UTF-8")]),
        Locale::English
    );
}

#[test]
fn an_unknown_higher_variable_gives_way_to_a_known_lower_one() {
    assert_eq!(
        detect_test_locale(&[("LC_ALL", "zz_ZZ.UTF-8"), ("LANG", "fr_FR.UTF-8")]),
        Locale::French
    );
}

#[test]
fn the_language_code_stops_at_the_territory_and_the_encoding() {
    assert_eq!(language_code("de_CH.UTF-8"), Some("de"));
    assert_eq!(language_code("fr.UTF-8"), Some("fr"));
    assert_eq!(language_code("it"), Some("it"));
    assert_eq!(language_code("C.UTF-8"), None);
    assert_eq!(language_code("POSIX"), None);
    assert_eq!(language_code(""), None);
    assert_eq!(language_code("_US"), None);
}

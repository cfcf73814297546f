//! Locale parsing, resolution and the per-context state.

use fluent_i18n::{
    get_locale, resolve, set_fallback, set_locale, set_raw_mode, Error, FallbackLocale, Locale,
    LocaleState,
};
use unic_langid::parser::ParserError;
use unic_langid::{LanguageIdentifier, LanguageIdentifierError};

#[test]
fn default_locale_is_en_us() {
    let locale = Locale::default_locale();
    assert_eq!(locale.tag(), "en-US");
    assert_eq!(locale.language(), "en");
    assert_eq!(locale.script(), None);
    assert_eq!(locale.region(), Some("US"));
    assert!(locale.variants().is_empty());
}

#[test]
fn parse_normalizes_case_and_separators() {
    let locale = Locale::parse("EN_us").unwrap();
    assert_eq!(locale.tag(), "en-US");
    assert_eq!(locale, Locale::parse("en-US").unwrap());
}

#[test]
fn parse_splits_all_subtags() {
    let locale = Locale::parse("zh-hant-tw").unwrap();
    assert_eq!(locale.language(), "zh");
    assert_eq!(locale.script(), Some("Hant"));
    assert_eq!(locale.region(), Some("TW"));
    assert_eq!(locale.tag(), "zh-Hant-TW");

    let locale = Locale::parse("ca-ES-valencia").unwrap();
    assert_eq!(locale.variants(), &vec![String::from("valencia")]);
    assert_eq!(locale.tag(), "ca-ES-valencia");

    let locale = Locale::parse("de-1996-1901").unwrap();
    assert_eq!(locale.variants(), &vec![String::from("1901"), String::from("1996")]);
    assert_eq!(locale.tag(), "de-1901-1996");
}

#[test]
fn parse_of_a_tag_gives_the_locale_back() {
    for text in ["en-US", "fr", "zh-Hant-TW", "ca-ES-valencia", "es-419", "und"] {
        let locale = Locale::parse(text).unwrap();
        assert_eq!(locale.tag(), text);
        assert_eq!(Locale::parse(&locale.tag()).unwrap(), locale);
    }
}

#[test]
fn clone_keeps_every_subtag() {
    let locale = Locale::parse("sl-Latn-SI-rozaj-biske").unwrap();
    let copy = locale.clone();
    assert_eq!(copy, locale);
    assert_eq!(copy.tag(), "sl-Latn-SI-biske-rozaj");
}

#[test]
fn parse_error_carries_text_and_reason() {
    let error = Locale::parse("???").unwrap_err();
    assert_eq!(
        error,
        Error::LocaleParseError {
            locale: String::from("???"),
            source: LanguageIdentifierError::ParserError(ParserError::InvalidLanguage),
        }
    );
    let error = Locale::parse("en-US-x").unwrap_err();
    assert_eq!(
        error,
        Error::LocaleParseError {
            locale: String::from("en-US-x"),
            source: LanguageIdentifierError::ParserError(ParserError::InvalidSubtag),
        }
    );
    assert!(Locale::parse("").is_err());
}

#[test]
fn resolve_prefers_explicit_then_detected_then_fallback_then_default() {
    let mut fallback = FallbackLocale::new();
    assert_eq!(resolve(None, None, &fallback).unwrap().tag(), "en-US");

    assert_eq!(set_fallback(&mut fallback, "de-DE"), Ok(true));
    assert_eq!(resolve(None, None, &fallback).unwrap().tag(), "de-DE");
    assert_eq!(resolve(None, Some("ja-JP"), &fallback).unwrap().tag(), "ja-JP");
    assert_eq!(resolve(Some("fr-FR"), Some("ja-JP"), &fallback).unwrap().tag(), "fr-FR");
}

#[test]
fn resolve_fails_hard_on_a_malformed_detected_locale() {
    let mut fallback = FallbackLocale::new();
    assert_eq!(set_fallback(&mut fallback, "de-DE"), Ok(true));
    let error = resolve(None, Some("C"), &fallback).unwrap_err();
    assert!(matches!(error, Error::LocaleParseError { ref locale, .. } if locale == "C"));
    assert!(resolve(Some("???"), Some("ja-JP"), &fallback).is_err());
    assert_eq!(resolve(Some("fr"), Some("C"), &fallback).unwrap().tag(), "fr");
}

#[test]
fn fallback_is_written_once() {
    let mut fallback = FallbackLocale::new();
    assert!(fallback.get().is_none());
    assert!(fallback.set(Locale::parse("fr-FR").unwrap()));
    assert!(!fallback.set(Locale::parse("ja-JP").unwrap()));
    assert_eq!(fallback.get().unwrap().tag(), "fr-FR");
    assert_eq!(set_fallback(&mut fallback, "de"), Ok(false));
    assert_eq!(fallback.get().unwrap().tag(), "fr-FR");
    assert_eq!(resolve(None, None, &fallback).unwrap().tag(), "fr-FR");

    let state = LocaleState::new();
    assert_eq!(get_locale(&state, &fallback).tag(), "fr-FR");
}

#[test]
fn malformed_fallback_is_an_error_and_installs_nothing() {
    let mut fallback = FallbackLocale::new();
    assert!(set_fallback(&mut fallback, "???").is_err());
    assert!(fallback.get().is_none());
    assert_eq!(set_fallback(&mut fallback, "it"), Ok(true));
}

#[test]
fn get_locale_reads_state_then_fallback_then_default() {
    let mut state = LocaleState::new();
    let mut fallback = FallbackLocale::new();
    assert_eq!(get_locale(&state, &fallback).tag(), "en-US");
    fallback.set(Locale::parse("pt-BR").unwrap());
    assert_eq!(get_locale(&state, &fallback).tag(), "pt-BR");
    set_locale(&mut state, &fallback, Some("tr-TR")).unwrap();
    assert_eq!(get_locale(&state, &fallback).tag(), "tr-TR");
    assert_eq!(state.get(&fallback), Locale::parse("tr-TR").unwrap());
}

#[test]
fn set_locale_round_trips_through_the_state() {
    let mut state = LocaleState::new();
    let fallback = FallbackLocale::new();
    for text in ["en-US", "fr_fr", "ZH-hans-cn", "unknown-locale"] {
        set_locale(&mut state, &fallback, Some(text)).unwrap();
        assert_eq!(get_locale(&state, &fallback), Locale::parse(text).unwrap());
    }
    assert_eq!(get_locale(&state, &fallback).tag(), "unknown-locale");
}

#[test]
fn failed_set_locale_leaves_the_state_unchanged() {
    let mut state = LocaleState::new();
    let fallback = FallbackLocale::new();
    set_locale(&mut state, &fallback, Some("ja-JP")).unwrap();
    set_raw_mode(&mut state, true);
    let error = set_locale(&mut state, &fallback, Some("???")).unwrap_err();
    assert!(matches!(error, Error::LocaleParseError { ref locale, .. } if locale == "???"));
    assert_eq!(get_locale(&state, &fallback).tag(), "ja-JP");
    assert!(state.raw_mode());
}

#[test]
fn set_locale_without_a_string_settles_or_changes_nothing() {
    let mut state = LocaleState::new();
    let mut fallback = FallbackLocale::new();
    fallback.set(Locale::parse("nl-NL").unwrap());
    match set_locale(&mut state, &fallback, None) {
        Ok(()) => {
            let stored = get_locale(&state, &fallback);
            let unset = FallbackLocale::new();
            assert_eq!(get_locale(&state, &unset), stored);
        }
        Err(Error::LocaleParseError { .. }) => {
            assert_eq!(get_locale(&state, &fallback).tag(), "nl-NL");
        }
    }
}

#[test]
fn set_raw_mode_keeps_the_locale() {
    let mut state = LocaleState::new();
    let fallback = FallbackLocale::new();
    assert!(!state.raw_mode());
    set_locale(&mut state, &fallback, Some("fr-FR")).unwrap();
    set_raw_mode(&mut state, true);
    assert!(state.raw_mode());
    assert_eq!(get_locale(&state, &fallback).tag(), "fr-FR");
    set_raw_mode(&mut state, false);
    assert!(!state.raw_mode());
    set_locale(&mut state, &fallback, Some("de")).unwrap();
    assert!(!state.raw_mode());
}

#[test]
fn contexts_do_not_see_each_other() {
    let fallback = FallbackLocale::new();
    let mut first = LocaleState::new();
    let mut second = LocaleState::new();
    set_locale(&mut first, &fallback, Some("fr-FR")).unwrap();
    assert_eq!(get_locale(&second, &fallback).tag(), "en-US");
    set_locale(&mut second, &fallback, Some("ja-JP")).unwrap();
    set_raw_mode(&mut second, true);
    assert_eq!(get_locale(&first, &fallback).tag(), "fr-FR");
    assert_eq!(get_locale(&second, &fallback).tag(), "ja-JP");
    assert!(!first.raw_mode());
}

#[test]
fn stored_locale_keeps_the_parsed_subtags() {
    let mut state = LocaleState::new();
    let fallback = FallbackLocale::new();
    set_locale(&mut state, &fallback, Some("en-abcde-abcd")).unwrap();
    let stored = get_locale(&state, &fallback);
    assert_eq!(stored.script(), None);
    assert_eq!(stored.variants(), &vec![String::from("abcd"), String::from("abcde")]);
    assert_eq!(stored.tag(), "en-abcd-abcde");
    assert_eq!(Locale::parse(&stored.tag()).unwrap().script(), Some("Abcd"));
}

#[test]
fn identifier_is_the_one_the_parser_gave() {
    for text in ["en-US", "EN_us", "zh-hant-tw", "de-1996-1901", "und", "en-abcde-abcd"] {
        let locale = Locale::parse(text).unwrap();
        let parsed: LanguageIdentifier = text.parse().unwrap();
        assert_eq!(locale.identifier(), &parsed);
        assert_eq!(locale.clone().identifier(), &parsed);
        assert_eq!(locale.tag(), parsed.to_string());
    }
    let default: LanguageIdentifier = "en-US".parse().unwrap();
    assert_eq!(Locale::default_locale().identifier(), &default);
    assert_eq!(Locale::default_locale(), Locale::parse("en-US").unwrap());
}

#[test]
fn same_as_compares_every_subtag() {
    let locale = Locale::parse("sl-Latn-SI-rozaj-biske").unwrap();
    assert!(locale.same_as(&Locale::parse("SL_latn_si_biske_rozaj").unwrap()));
    assert!(locale.same_as(&locale.clone()));
    assert!(!locale.same_as(&Locale::parse("sl-Latn-SI-rozaj").unwrap()));
    assert!(!locale.same_as(&Locale::parse("sl-Latn-SI-rozaj-nedis").unwrap()));
    assert!(!locale.same_as(&Locale::parse("sl-Cyrl-SI-rozaj-biske").unwrap()));
    assert!(!locale.same_as(&Locale::parse("sl-SI-rozaj-biske").unwrap()));
    assert!(!locale.same_as(&Locale::parse("sl-Latn-IT-rozaj-biske").unwrap()));
    assert!(!locale.same_as(&Locale::parse("sr-Latn-SI-rozaj-biske").unwrap()));
    assert!(Locale::default_locale().same_as(&Locale::parse("en-US").unwrap()));
}

#[test]
fn tag_round_trip_holds_where_the_locale_reads_back() {
    let mut state = LocaleState::new();
    let fallback = FallbackLocale::new();
    for (text, tag) in [("en-us", "en-US"), ("ZH_hant_tw", "zh-Hant-TW"), ("de-1996-1901", "de-1901-1996")] {
        set_locale(&mut state, &fallback, Some(text)).unwrap();
        let stored = get_locale(&state, &fallback);
        assert!(stored.reads_back());
        assert_eq!(stored.tag(), tag);
        assert_eq!(Locale::parse(tag).unwrap(), stored);
        assert_eq!(set_locale(&mut state, &fallback, Some(tag)), Ok(()));
        assert_eq!(get_locale(&state, &fallback).tag(), tag);
    }
    assert!(Locale::default_locale().reads_back());
    assert!(!Locale::parse("en-abcde-abcd").unwrap().reads_back());
}

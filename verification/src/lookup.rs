//! Message lookup: the current locale's message for a key, the key itself in
//! raw mode, a diagnostic text where the catalog has no message.

use crate::args::Args;
use crate::locale::{
    effective_locale, FallbackLocale, Locale, LocaleState, LocaleStateView, LocaleView,
};
use crate::value::Value;
use fluent_templates::fluent_bundle::FluentValue;
use fluent_templates::{Loader, StaticLoader};
use std::borrow::Cow;
use std::collections::HashMap;
use unic_langid::LanguageIdentifier;
use vstd::prelude::*;
use vstd::string::*;

verus! {

/// `fluent_templates::StaticLoader`, the translation catalog. Its contents
/// are not inspected here.
#[verifier::external_type_specification]
#[verifier::external_body]
pub struct ExStaticLoader(fluent_templates::StaticLoader);

/// Calls `<fluent_templates::StaticLoader as Loader>::try_lookup_complete`
/// with the arguments, if any, converted one for one.
///
/// Trusted: nothing is claimed of the result. Which of two equally specific
/// locales of the catalog is asked first depends on the order in which the
/// loader walks a hash map, so the result is no function of the arguments.
#[verifier::external_body]
fn catalog_find(
    catalog: &StaticLoader,
    id: &LanguageIdentifier,
    key: &str,
    args: Option<&Args>,
) -> Option<String> {
    let converted: Option<HashMap<Cow<'static, str>, FluentValue<'static>>> = args.map(|a| {
        a.entries.iter().map(|(name, value)| (Cow::Owned(name.clone()), match value {
            Value::Text(text) => FluentValue::from(text.clone()),
            Value::Number(n) => FluentValue::from(*n),
            Value::Absent => FluentValue::None,
        })).collect()
    });
    catalog.try_lookup_complete(id, key, converted.as_ref())
}

/// What the text for a missing key opens with.
pub open spec fn missing_key_opening() -> Seq<char> {
    "Unknown localization key: \""@
}

/// The text reported for a key that the catalog has no message for: a fixed
/// opening, then the key as given, between double quotes.
pub open spec fn missing_key_text(key: Seq<char>) -> Seq<char> {
    missing_key_opening() + key + seq!['"']
}

/// The view of what the catalog found.
pub open spec fn found_view(found: Option<String>) -> Option<Seq<char>> {
    match found {
        Some(text) => Some(text@),
        None => None,
    }
}

/// The rendered message for a key, given what the catalog found.
pub open spec fn rendered(key: Seq<char>, found: Option<Seq<char>>) -> Seq<char> {
    match found {
        Some(text) => text,
        None => missing_key_text(key),
    }
}

/// The locale a lookup asks the catalog with, or `None` where the lookup
/// bypasses the catalog because raw mode is on.
pub open spec fn lookup_target_spec(
    state: LocaleStateView,
    fallback: Option<LocaleView>,
) -> Option<LocaleView> {
    if state.raw_mode {
        None
    } else {
        Some(effective_locale(state, fallback))
    }
}

/// The view of a lookup target.
pub open spec fn target_view(target: Option<Locale>) -> Option<LocaleView> {
    match target {
        Some(locale) => Some(locale@),
        None => None,
    }
}

/// Whether `text` is what a lookup of `key` returns in a context with raw
/// mode `raw_mode` when the catalog finds `found`: the key itself in raw
/// mode; else the text found, or the diagnostic text where nothing is found.
pub open spec fn lookup_result(
    raw_mode: bool,
    key: Seq<char>,
    found: Option<Seq<char>>,
    text: Seq<char>,
) -> bool {
    if raw_mode {
        text == key
    } else {
        text == rendered(key, found)
    }
}

/// The text reported for a key without a message.
pub fn missing_key_message(key: &str) -> (text: String)
    ensures
        text@ == missing_key_text(key@),
{
    proof {
        reveal_strlit("\"");
    }
    let mut text = String::from_str("Unknown localization key: \"");
    text.append(key);
    text.append("\"");
    assert(text@ =~= missing_key_text(key@));
    text
}

/// Turns what the catalog found for `key` into the message to show: the
/// text found, or the diagnostic text for a missing key.
pub fn render(key: &str, found: Option<String>) -> (text: String)
    ensures
        text@ == rendered(key@, found_view(found)),
{
    match found {
        Some(text) => text,
        None => missing_key_message(key),
    }
}

/// Decides what a lookup in this context asks the catalog with: nothing in
/// raw mode, else the context's current locale.
pub fn lookup_target(state: &LocaleState, fallback: &FallbackLocale) -> (target: Option<Locale>)
    ensures
        target_view(target) == lookup_target_spec(state@, fallback@),
{
    if state.raw_mode() {
        None
    } else {
        Some(state.get(fallback))
    }
}

fn lookup_complete(
    state: &LocaleState,
    fallback: &FallbackLocale,
    catalog: &StaticLoader,
    key: &str,
    args: Option<&Args>,
) -> (text: String)
    ensures
        state@.raw_mode ==> text@ == key@,
        exists|found: Option<Seq<char>>| #[trigger]
            lookup_result(state@.raw_mode, key@, found, text@),
{
    match lookup_target(state, fallback) {
        None => {
            let text = String::from_str(key);
            assert(lookup_result(state@.raw_mode, key@, None, text@));
            text
        },
        Some(locale) => {
            let found = catalog_find(catalog, locale.identifier(), key, args);
            let ghost found_view = found_view(found);
            let text = render(key, found);
            assert(lookup_result(state@.raw_mode, key@, found_view, text@));
            text
        },
    }
}

/// Looks up the message for `key` in the current locale of the context.
///
/// In raw mode the key itself is returned and the catalog is not asked.
/// Otherwise the result is what the catalog finds for the current locale,
/// or the diagnostic text if it finds nothing. A string is always returned.
pub fn lookup(
    state: &LocaleState,
    fallback: &FallbackLocale,
    catalog: &StaticLoader,
    key: &str,
) -> (text: String)
    ensures
        state@.raw_mode ==> text@ == key@,
        exists|found: Option<Seq<char>>| #[trigger]
            lookup_result(state@.raw_mode, key@, found, text@),
{
    lookup_complete(state, fallback, catalog, key, None)
}

/// Looks up the message for `key` in the current locale of the context and
/// has the catalog interpolate `args` into it.
///
/// In raw mode the key itself is returned and the catalog is not asked.
/// Otherwise the result is what the catalog finds for the current locale,
/// or the diagnostic text if it finds nothing. A string is always returned.
pub fn lookup_with_args(
    state: &LocaleState,
    fallback: &FallbackLocale,
    catalog: &StaticLoader,
    key: &str,
    args: &Args,
) -> (text: String)
    ensures
        state@.raw_mode ==> text@ == key@,
        exists|found: Option<Seq<char>>| #[trigger]
            lookup_result(state@.raw_mode, key@, found, text@),
{
    lookup_complete(state, fallback, catalog, key, Some(args))
}

/// The text for a missing key holds the key as given, character for
/// character, right after the fixed opening.
pub proof fn lemma_missing_key_text_holds_key(key: Seq<char>)
    ensures
        missing_key_text(key).len() == missing_key_opening().len() + key.len() + 1,
        missing_key_text(key).subrange(
            missing_key_opening().len() as int,
            (missing_key_opening().len() + key.len()) as int,
        ) == key,
{
    assert(missing_key_text(key).subrange(
        missing_key_opening().len() as int,
        (missing_key_opening().len() + key.len()) as int,
    ) =~= key);
}

/// In raw mode a lookup returns the key, whatever the catalog would find;
/// otherwise a key with no message anywhere gets the diagnostic text, and a
/// message that the catalog finds, by whatever chain of its own, is returned
/// as found.
pub proof fn lemma_lookup_cases(key: Seq<char>, found: Option<Seq<char>>, text: Seq<char>)
    ensures
        lookup_result(true, key, found, text) <==> text == key,
        lookup_result(false, key, None, text) <==> text == missing_key_text(key),
        found is Some ==> (lookup_result(false, key, found, text) <==> text == found->Some_0),
{
}

} // verus!

//! The error type of the crate.

use crate::args::Args;
use crate::locale::{FallbackLocale, LocaleState};
use crate::lookup::{lookup_result, lookup_with_args, rendered};
use crate::value::Value;
use fluent_templates::StaticLoader;
use unic_langid::LanguageIdentifierError;
use vstd::prelude::*;
use vstd::string::*;

verus! {

/// `unic_langid::LanguageIdentifierError`, the reason the language identifier
/// parser gives for a rejection. Its contents are not inspected here.
#[verifier::external_type_specification]
#[verifier::external_body]
pub struct ExLanguageIdentifierError(unic_langid::LanguageIdentifierError);

/// The error that may occur while using the crate.
#[derive(Debug, PartialEq)]
pub enum Error {
    /// A locale string could not be parsed.
    LocaleParseError {
        /// The locale string that could not be parsed, as it was given.
        locale: String,
        /// What the parser reported.
        source: LanguageIdentifierError,
    },
}

/// Mathematical model of an [`Error`].
pub enum ErrorView {
    LocaleParseError { locale: Seq<char>, source: LanguageIdentifierError },
}

impl View for Error {
    type V = ErrorView;

    open spec fn view(&self) -> ErrorView {
        match self {
            Error::LocaleParseError { locale, source } => ErrorView::LocaleParseError {
                locale: locale@,
                source: *source,
            },
        }
    }
}

/// The text that `unic_langid::LanguageIdentifierError` displays.
pub uninterp spec fn reason_of(source: LanguageIdentifierError) -> Seq<char>;

/// Calls `<unic_langid::LanguageIdentifierError as Display>::fmt`.
///
/// Trusted: the text is a function of the error alone, named [`reason_of`].
#[verifier::external_body]
fn reason_text(source: &LanguageIdentifierError) -> (text: String)
    ensures
        text@ == reason_of(*source),
{
    format!("{}", source)
}

/// A headline, a line break and a reason.
pub open spec fn message_text_spec(headline: Seq<char>, reason: Seq<char>) -> Seq<char> {
    headline + seq!['\n'] + reason
}

/// Puts the message of an error together: the headline, a line break, the
/// reason.
pub fn message_text(headline: String, reason: &str) -> (text: String)
    ensures
        text@ == message_text_spec(headline@, reason@),
{
    proof {
        reveal_strlit("\n");
    }
    let mut text = headline;
    text.append("\n");
    text.append(reason);
    assert(text@ =~= message_text_spec(headline@, reason@));
    text
}

/// The key under which a catalog holds the sentence for a locale that could
/// not be parsed. The sentence may refer to the argument `locale`.
pub open spec fn locale_parse_key() -> Seq<char> {
    "error-locale-parse"@
}

/// The parser's reason that an error carries.
pub open spec fn source_of(error: ErrorView) -> LanguageIdentifierError {
    match error {
        ErrorView::LocaleParseError { locale, source } => source,
    }
}

/// Whether `text` is the message of `error` in a context with raw mode
/// `raw_mode` when the catalog finds `found` for the key: a headline, a line
/// break and what the parser's reason displays. The headline is the key in
/// raw mode; else the text found, or the diagnostic text for a missing key.
pub open spec fn message_result(
    raw_mode: bool,
    error: ErrorView,
    found: Option<Seq<char>>,
    text: Seq<char>,
) -> bool {
    let headline = if raw_mode {
        locale_parse_key()
    } else {
        rendered(locale_parse_key(), found)
    };
    text == message_text_spec(headline, reason_of(source_of(error)))
}

impl Error {
    /// The message of the error for the reader: the catalog's sentence for
    /// the key `error-locale-parse`, looked up in the context's current
    /// locale with the offending text as the argument `locale`, then a line
    /// break and what the parser's reason displays.
    ///
    /// A catalog without that key yields the diagnostic text as headline;
    /// the call never fails.
    pub fn message(
        &self,
        state: &LocaleState,
        fallback: &FallbackLocale,
        catalog: &StaticLoader,
    ) -> (text: String)
        ensures
            exists|found: Option<Seq<char>>| #[trigger]
                message_result(state@.raw_mode, self@, found, text@),
    {
        match self {
            Error::LocaleParseError { locale, source } => {
                let mut args = Args::new();
                args.insert("locale", Value::Text(locale.clone()));
                let key = "error-locale-parse";
                let headline = lookup_with_args(state, fallback, catalog, key, &args);
                let ghost found = choose|found: Option<Seq<char>>| #[trigger]
                    lookup_result(state@.raw_mode, key@, found, headline@);
                let reason = reason_text(source);
                let text = message_text(headline, reason.as_str());
                assert(message_result(state@.raw_mode, self@, found, text@));
                text
            },
        }
    }
}

} // verus!

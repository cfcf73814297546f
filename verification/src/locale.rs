//! Locale identifiers, the per-context locale state and locale resolution.

use crate::error::{Error, ErrorView};
use unic_langid::{LanguageIdentifier, LanguageIdentifierError};
use vstd::prelude::*;
use vstd::string::*;

verus! {

/// Mathematical model of a [`Locale`]: its subtags as character sequences.
pub struct LocaleView {
    pub language: Seq<char>,
    pub script: Option<Seq<char>>,
    pub region: Option<Seq<char>>,
    pub variants: Seq<Seq<char>>,
}

/// A language identifier: its subtags as strings, and the identifier built
/// from them, which is what a catalog is asked with.
///
/// Two locales are the same exactly when all their subtags are the same.
#[derive(Debug, PartialEq, Eq)]
pub struct Locale {
    language: String,
    script: Option<String>,
    region: Option<String>,
    variants: Vec<String>,
    id: LanguageIdentifier,
}

impl View for Locale {
    type V = LocaleView;

    closed spec fn view(&self) -> LocaleView {
        subtags_view(self.language, self.script, self.region, self.variants)
    }
}

/// The view of four subtag fields.
pub open spec fn subtags_view(
    language: String,
    script: Option<String>,
    region: Option<String>,
    variants: Vec<String>,
) -> LocaleView {
    LocaleView {
        language: language@,
        script: subtag_view(script),
        region: subtag_view(region),
        variants: variants@.map_values(|s: String| s@),
    }
}

/// The view of an optional subtag.
pub open spec fn subtag_view(subtag: Option<String>) -> Option<Seq<char>> {
    match subtag {
        Some(s) => Some(s@),
        None => None,
    }
}

/// The text of an optional subtag preceded by a hyphen, or nothing.
pub open spec fn hyphenated(subtag: Option<Seq<char>>) -> Seq<char> {
    match subtag {
        Some(s) => seq!['-'] + s,
        None => Seq::empty(),
    }
}

/// All variants, each preceded by a hyphen, in order.
pub open spec fn hyphenated_all(variants: Seq<Seq<char>>) -> Seq<char>
    decreases variants.len(),
{
    if variants.len() == 0 {
        Seq::empty()
    } else {
        hyphenated_all(variants.drop_last()) + seq!['-'] + variants.last()
    }
}

/// The tag of a locale: language, script, region and variants joined by
/// hyphens, absent subtags left out.
pub open spec fn tag_of(locale: LocaleView) -> Seq<char> {
    locale.language + hyphenated(locale.script) + hyphenated(locale.region) + hyphenated_all(
        locale.variants,
    )
}

/// The locale used when nothing else is known: `en-US`.
pub open spec fn default_locale_view() -> LocaleView {
    LocaleView { language: "en"@, script: None, region: Some("US"@), variants: Seq::empty() }
}

/// What `unic_langid`'s parser makes of a text: the subtags of the identifier
/// it accepts, in the parser's normal form, or the reason for its rejection.
pub uninterp spec fn langid_parse(text: Seq<char>) -> Result<LocaleView, LanguageIdentifierError>;

/// What parsing a text yields in this crate: the parser's identifier, or an
/// error that carries the text as given together with the parser's reason.
pub open spec fn parse_spec(text: Seq<char>) -> Result<LocaleView, ErrorView> {
    match langid_parse(text) {
        Ok(locale) => Ok(locale),
        Err(source) => Err(ErrorView::LocaleParseError { locale: text, source }),
    }
}

/// The view of what the parser returned.
pub open spec fn parsed_view(parsed: Result<Locale, LanguageIdentifierError>) -> Result<
    LocaleView,
    LanguageIdentifierError,
> {
    match parsed {
        Ok(locale) => Ok(locale@),
        Err(source) => Err(source),
    }
}

/// The view of a parse or resolution outcome.
pub open spec fn outcome_view(outcome: Result<Locale, Error>) -> Result<LocaleView, ErrorView> {
    match outcome {
        Ok(locale) => Ok(locale@),
        Err(error) => Err(error@),
    }
}

/// The view of an optional text.
pub open spec fn text_view(text: Option<&str>) -> Option<Seq<char>> {
    match text {
        Some(t) => Some(t@),
        None => None,
    }
}

/// Calls `<unic_langid::LanguageIdentifier as FromStr>::from_str`, copies the
/// subtags of an accepted identifier out as strings and keeps the identifier.
///
/// Trusted: the outcome is a function of the text alone, named
/// [`langid_parse`], and the identifier kept is the one that its own subtags
/// build. Nothing is claimed about which texts are accepted.
#[verifier::external_body]
fn parse_langid(text: &str) -> (parsed: Result<Locale, LanguageIdentifierError>)
    ensures
        parsed_view(parsed) == langid_parse(text@),
        parsed matches Ok(locale) ==> langid_built(locale@) == Some(locale.id),
{
    let id = text.parse::<LanguageIdentifier>()?;
    Ok(
        Locale {
            language: id.language.as_str().to_string(),
            script: id.script.map(|s| s.as_str().to_string()),
            region: id.region.map(|s| s.as_str().to_string()),
            variants: id.variants().map(|v| v.as_str().to_string()).collect(),
            id,
        },
    )
}

/// `unic_langid::LanguageIdentifier`, the identifier the catalog is asked
/// with. It is only built and handed on here.
#[verifier::external_type_specification]
#[verifier::external_body]
pub struct ExLanguageIdentifier(unic_langid::LanguageIdentifier);

/// The identifier that `unic_langid` builds from subtags given as strings,
/// or nothing where it refuses one of them.
pub uninterp spec fn langid_built(subtags: LocaleView) -> Option<LanguageIdentifier>;

/// Calls `unic_langid::LanguageIdentifier::from_parts` on the subtags, each
/// parsed by its `from_str`; `None` if a subtag is refused.
///
/// Trusted: the result is a function of the subtags alone, named
/// [`langid_built`], and the language `en` with the region `US` is accepted,
/// as the documentation of `unic_langid` shows.
#[verifier::external_body]
fn langid_from(
    language: &String,
    script: &Option<String>,
    region: &Option<String>,
    variants: &Vec<String>,
) -> (id: Option<LanguageIdentifier>)
    ensures
        id == langid_built(subtags_view(*language, *script, *region, *variants)),
        subtags_view(*language, *script, *region, *variants) == default_locale_view()
            ==> id is Some,
{
    let language = language.parse().ok()?;
    let script = script.as_ref().map(|s| s.parse()).transpose().ok()?;
    let region = region.as_ref().map(|s| s.parse()).transpose().ok()?;
    let variants: Result<Vec<_>, _> = variants.iter().map(|v| v.parse()).collect();
    Some(LanguageIdentifier::from_parts(language, script, region, &variants.ok()?))
}

/// Calls `<unic_langid::LanguageIdentifier as Clone>::clone`.
///
/// Trusted: the copy is the same identifier.
#[verifier::external_body]
fn copy_langid(id: &LanguageIdentifier) -> (copy: LanguageIdentifier)
    ensures
        copy == *id,
{
    id.clone()
}

/// Calls `sys_locale::get_locale`, which reads the platform's locale signals.
///
/// Trusted: nothing is claimed of the result, which depends on the
/// environment of the process.
#[verifier::external_body]
fn detect_system_locale() -> Option<String> {
    sys_locale::get_locale()
}

/// Whether the tag of `locale` reads back as `locale`: the parser accepts
/// the tag and gives the same subtags for it.
pub open spec fn reads_back_spec(locale: LocaleView) -> bool {
    langid_parse(tag_of(locale)) == Ok::<LocaleView, LanguageIdentifierError>(locale)
}

fn same_subtag(one: &Option<String>, other: &Option<String>) -> (same: bool)
    ensures
        same == (subtag_view(*one) == subtag_view(*other)),
{
    match (one, other) {
        (Some(a), Some(b)) => *a == *b,
        (None, None) => true,
        _ => false,
    }
}

fn clone_subtag(subtag: &Option<String>) -> (copy: Option<String>)
    ensures
        copy == *subtag,
{
    match subtag {
        Some(s) => Some(s.clone()),
        None => None,
    }
}

fn append_subtag(out: &mut String, subtag: &Option<String>)
    ensures
        final(out)@ == old(out)@ + hyphenated(subtag_view(*subtag)),
{
    match subtag {
        Some(s) => {
            proof {
                reveal_strlit("-");
            }
            out.append("-");
            out.append(s.as_str());
            assert(out@ =~= old(out)@ + (seq!['-'] + s@));
        },
        None => {
            assert(out@ =~= old(out)@ + Seq::<char>::empty());
        },
    }
}

impl Clone for Locale {
    fn clone(&self) -> (copy: Locale)
        ensures
            copy@ == self@,
    {
        let mut variants: Vec<String> = Vec::new();
        let mut i: usize = 0;
        while i < self.variants.len()
            invariant
                i <= self.variants.len(),
                variants@ == self.variants@.subrange(0, i as int),
            decreases self.variants.len() - i,
        {
            variants.push(self.variants[i].clone());
            assert(variants@ =~= self.variants@.subrange(0, i + 1));
            i += 1;
        }
        assert(variants@ =~= self.variants@);
        proof {
            use_type_invariant(self);
        }
        Locale {
            language: self.language.clone(),
            script: clone_subtag(&self.script),
            region: clone_subtag(&self.region),
            variants,
            id: copy_langid(&self.id),
        }
    }
}

impl Locale {
    /// The identifier kept is the one that the subtags build.
    #[verifier::type_invariant]
    spec fn identifier_matches(self) -> bool {
        langid_built(self@) == Some(self.id)
    }

    /// The default locale, `en-US`.
    pub fn default_locale() -> (locale: Locale)
        ensures
            locale@ == default_locale_view(),
    {
        let language = String::from_str("en");
        let script: Option<String> = None;
        let region = Some(String::from_str("US"));
        let variants: Vec<String> = Vec::new();
        assert(subtags_view(language, script, region, variants).variants =~= Seq::empty());
        match langid_from(&language, &script, &region, &variants) {
            Some(id) => Locale { language, script, region, variants, id },
            None => unreached(),
        }
    }

    /// The identifier of this locale for `unic_langid` and for a catalog:
    /// the one that its subtags build.
    pub fn identifier(&self) -> (id: &LanguageIdentifier)
        ensures
            langid_built(self@) == Some(*id),
    {
        proof {
            use_type_invariant(self);
        }
        &self.id
    }

    /// Parses a locale string.
    ///
    /// Succeeds exactly on the texts the language identifier parser accepts;
    /// otherwise the error carries the text as given and the parser's reason.
    pub fn parse(text: &str) -> (outcome: Result<Locale, Error>)
        ensures
            outcome_view(outcome) == parse_spec(text@),
    {
        match parse_langid(text) {
            Ok(locale) => Ok(locale),
            Err(source) => Err(Error::LocaleParseError { locale: String::from_str(text), source }),
        }
    }

    /// The language subtag.
    pub fn language(&self) -> (text: &str)
        ensures
            text@ == self@.language,
    {
        self.language.as_str()
    }

    /// The script subtag, if there is one.
    pub fn script(&self) -> (text: Option<&str>)
        ensures
            text_view(text) == self@.script,
    {
        match &self.script {
            Some(s) => Some(s.as_str()),
            None => None,
        }
    }

    /// The region subtag, if there is one.
    pub fn region(&self) -> (text: Option<&str>)
        ensures
            text_view(text) == self@.region,
    {
        match &self.region {
            Some(s) => Some(s.as_str()),
            None => None,
        }
    }

    /// The variant subtags, in order.
    pub fn variants(&self) -> (list: &Vec<String>)
        ensures
            list@.map_values(|s: String| s@) == self@.variants,
    {
        &self.variants
    }

    /// Whether `other` has the same subtags.
    pub fn same_as(&self, other: &Locale) -> (same: bool)
        ensures
            same == (self@ == other@),
    {
        let same_head = self.language == other.language
            && same_subtag(&self.script, &other.script)
            && same_subtag(&self.region, &other.region);
        if !same_head || self.variants.len() != other.variants.len() {
            assert(self@.variants.len() == self.variants.len());
            assert(other@.variants.len() == other.variants.len());
            return false;
        }
        let mut i: usize = 0;
        while i < self.variants.len()
            invariant
                i <= self.variants.len(),
                self.variants.len() == other.variants.len(),
                forall|j: int| 0 <= j < i ==> self.variants[j]@ == other.variants[j]@,
            decreases self.variants.len() - i,
        {
            if self.variants[i] != other.variants[i] {
                assert(self@.variants[i as int] != other@.variants[i as int]);
                return false;
            }
            i += 1;
        }
        assert(self@.variants =~= other@.variants);
        true
    }

    /// Whether parsing the tag of this locale gives this locale again.
    ///
    /// The parser does not promise it: variants come out sorted, and a
    /// variant of four letters that comes to stand right after the language
    /// is read as a script.
    pub fn reads_back(&self) -> (yes: bool)
        ensures
            yes == reads_back_spec(self@),
    {
        let tag = self.tag();
        match parse_langid(tag.as_str()) {
            Ok(again) => again.same_as(self),
            Err(_) => false,
        }
    }

    /// The tag of the locale, such as `en-US`.
    pub fn tag(&self) -> (text: String)
        ensures
            text@ == tag_of(self@),
    {
        let mut out = self.language.clone();
        append_subtag(&mut out, &self.script);
        append_subtag(&mut out, &self.region);
        let ghost base = out@;
        let mut i: usize = 0;
        assert(self@.variants.subrange(0, 0) =~= Seq::empty());
        assert(out@ =~= base + hyphenated_all(self@.variants.subrange(0, 0)));
        while i < self.variants.len()
            invariant
                i <= self.variants.len(),
                self@.variants.len() == self.variants.len(),
                out@ == base + hyphenated_all(self@.variants.subrange(0, i as int)),
            decreases self.variants.len() - i,
        {
            proof {
                reveal_strlit("-");
                let next = self@.variants.subrange(0, i + 1);
                assert(next.drop_last() =~= self@.variants.subrange(0, i as int));
                assert(next.last() == self.variants[i as int]@);
            }
            out.append("-");
            out.append(self.variants[i].as_str());
            assert(out@ =~= base + hyphenated_all(self@.variants.subrange(0, i + 1)));
            i += 1;
        }
        assert(self@.variants.subrange(0, i as int) =~= self@.variants);
        assert(out@ =~= tag_of(self@));
        out
    }
}

/// The process-wide fallback locale: written at most once.
#[derive(Debug)]
pub struct FallbackLocale {
    slot: Option<Locale>,
}

impl View for FallbackLocale {
    type V = Option<LocaleView>;

    closed spec fn view(&self) -> Option<LocaleView> {
        match self.slot {
            Some(locale) => Some(locale@),
            None => None,
        }
    }
}

impl FallbackLocale {
    /// A fallback that has not been set.
    pub fn new() -> (fallback: FallbackLocale)
        ensures
            fallback@ is None,
    {
        FallbackLocale { slot: None }
    }

    /// Installs `locale` if no fallback was installed before; otherwise does
    /// nothing. Returns whether `locale` was installed.
    pub fn set(&mut self, locale: Locale) -> (installed: bool)
        ensures
            installed == (old(self)@ is None),
            final(self)@ == fallback_after_set(old(self)@, locale@),
    {
        if self.slot.is_none() {
            self.slot = Some(locale);
            true
        } else {
            false
        }
    }

    /// The installed fallback, if any.
    pub fn get(&self) -> (locale: Option<&Locale>)
        ensures
            match locale {
                Some(l) => self@ == Some(l@),
                None => self@ is None,
            },
    {
        self.slot.as_ref()
    }
}

/// The fallback after an attempt to install `locale`: the first one stays.
pub open spec fn fallback_after_set(before: Option<LocaleView>, locale: LocaleView) -> Option<
    LocaleView,
> {
    match before {
        Some(first) => Some(first),
        None => Some(locale),
    }
}

/// Mathematical model of a [`LocaleState`].
pub struct LocaleStateView {
    pub current: Option<LocaleView>,
    pub raw_mode: bool,
}

/// The locale state of one execution context: the locale resolved last, if
/// any, and the raw-mode flag.
#[derive(Debug)]
pub struct LocaleState {
    current: Option<Locale>,
    raw_mode: bool,
}

impl View for LocaleState {
    type V = LocaleStateView;

    closed spec fn view(&self) -> LocaleStateView {
        LocaleStateView {
            current: match self.current {
                Some(locale) => Some(locale@),
                None => None,
            },
            raw_mode: self.raw_mode,
        }
    }
}

/// The locale a context reports: the stored one, else the fallback, else the
/// default.
pub open spec fn effective_locale(
    state: LocaleStateView,
    fallback: Option<LocaleView>,
) -> LocaleView {
    match state.current {
        Some(locale) => locale,
        None => match fallback {
            Some(locale) => locale,
            None => default_locale_view(),
        },
    }
}

/// The outcome of resolution: the explicit text if given, else the detected
/// one if present, each parsed with failure as a hard error; else the
/// fallback if set; else the default.
pub open spec fn resolve_spec(
    explicit: Option<Seq<char>>,
    detected: Option<Seq<char>>,
    fallback: Option<LocaleView>,
) -> Result<LocaleView, ErrorView> {
    match explicit {
        Some(text) => parse_spec(text),
        None => match detected {
            Some(text) => parse_spec(text),
            None => match fallback {
                Some(locale) => Ok(locale),
                None => Ok(default_locale_view()),
            },
        },
    }
}

/// The state after storing a resolution outcome: a resolved locale replaces
/// the stored one and leaves the raw-mode flag alone; an error changes nothing.
pub open spec fn state_after(
    before: LocaleStateView,
    outcome: Result<LocaleView, ErrorView>,
) -> LocaleStateView {
    match outcome {
        Ok(locale) => LocaleStateView { current: Some(locale), raw_mode: before.raw_mode },
        Err(_) => before,
    }
}

/// What [`set_locale`] reports for a resolution outcome.
pub open spec fn report_of(outcome: Result<LocaleView, ErrorView>) -> Result<(), ErrorView> {
    match outcome {
        Ok(_) => Ok(()),
        Err(error) => Err(error),
    }
}

/// The view of what [`set_locale`] returns.
pub open spec fn report_view(report: Result<(), Error>) -> Result<(), ErrorView> {
    match report {
        Ok(_) => Ok(()),
        Err(error) => Err(error@),
    }
}

/// Whether a call of [`set_locale`] that detected `detected` ends in state
/// `after` with report `report`.
pub open spec fn set_locale_outcome(
    before: LocaleStateView,
    fallback: Option<LocaleView>,
    explicit: Option<Seq<char>>,
    detected: Option<Seq<char>>,
    after: LocaleStateView,
    report: Result<(), ErrorView>,
) -> bool {
    let outcome = resolve_spec(explicit, detected, fallback);
    after == state_after(before, outcome) && report == report_of(outcome)
}

impl LocaleState {
    /// The state of a fresh context: no locale stored, raw mode off.
    pub fn new() -> (state: LocaleState)
        ensures
            state@ == (LocaleStateView { current: None, raw_mode: false }),
    {
        LocaleState { current: None, raw_mode: false }
    }

    /// Stores `locale` as the current locale of this context.
    pub fn set(&mut self, locale: Locale)
        ensures
            final(self)@ == (LocaleStateView {
                current: Some(locale@),
                raw_mode: old(self)@.raw_mode,
            }),
    {
        self.current = Some(locale);
    }

    /// The locale of this context: the stored one, else the fallback, else
    /// the default.
    pub fn get(&self, fallback: &FallbackLocale) -> (locale: Locale)
        ensures
            locale@ == effective_locale(self@, fallback@),
    {
        match &self.current {
            Some(locale) => locale.clone(),
            None => match fallback.get() {
                Some(locale) => locale.clone(),
                None => Locale::default_locale(),
            },
        }
    }

    /// Whether raw mode is on in this context.
    pub fn raw_mode(&self) -> (enabled: bool)
        ensures
            enabled == self@.raw_mode,
    {
        self.raw_mode
    }
}

/// Decides the effective locale from an explicit locale string, a detected
/// system locale, the fallback and the default, in that order.
///
/// A given string that does not parse is an error, explicit or detected; it
/// is never skipped.
pub fn resolve(
    explicit: Option<&str>,
    detected: Option<&str>,
    fallback: &FallbackLocale,
) -> (outcome: Result<Locale, Error>)
    ensures
        outcome_view(outcome) == resolve_spec(text_view(explicit), text_view(detected), fallback@),
{
    match explicit {
        Some(text) => Locale::parse(text),
        None => match detected {
            Some(text) => Locale::parse(text),
            None => match fallback.get() {
                Some(locale) => Ok(locale.clone()),
                None => Ok(Locale::default_locale()),
            },
        },
    }
}

/// Sets the current locale of a context.
///
/// With a locale string, that string is resolved. Without one, the system
/// locale is detected and resolved if there is one; else the fallback is
/// used if set; else the default. On an error the state stays as it was.
pub fn set_locale(
    state: &mut LocaleState,
    fallback: &FallbackLocale,
    locale: Option<&str>,
) -> (report: Result<(), Error>)
    ensures
        exists|detected: Option<Seq<char>>| #[trigger]
            set_locale_outcome(
                old(state)@,
                fallback@,
                text_view(locale),
                detected,
                final(state)@,
                report_view(report),
            ),
        locale is Some ==> set_locale_outcome(
            old(state)@,
            fallback@,
            text_view(locale),
            None,
            final(state)@,
            report_view(report),
        ),
{
    let detected: Option<String> = if locale.is_none() {
        detect_system_locale()
    } else {
        None
    };
    let detected_text: Option<&str> = match &detected {
        Some(text) => Some(text.as_str()),
        None => None,
    };
    match resolve(locale, detected_text, fallback) {
        Ok(resolved) => {
            state.set(resolved);
            assert(set_locale_outcome(
                old(state)@,
                fallback@,
                text_view(locale),
                text_view(detected_text),
                state@,
                Ok(()),
            ));
            Ok(())
        },
        Err(error) => {
            assert(set_locale_outcome(
                old(state)@,
                fallback@,
                text_view(locale),
                text_view(detected_text),
                state@,
                Err(error@),
            ));
            Err(error)
        },
    }
}

/// Returns the current locale of a context: the one set last, else the
/// fallback, else the default.
pub fn get_locale(state: &LocaleState, fallback: &FallbackLocale) -> (locale: Locale)
    ensures
        locale@ == effective_locale(state@, fallback@),
{
    state.get(fallback)
}

/// Enables or disables raw mode for a context. The stored locale is left
/// alone.
pub fn set_raw_mode(state: &mut LocaleState, enabled: bool)
    ensures
        final(state)@ == (LocaleStateView { current: old(state)@.current, raw_mode: enabled }),
{
    state.raw_mode = enabled;
}

/// Parses `tag` and installs it as the fallback unless one is installed
/// already. Returns whether it was installed; a tag that does not parse is an
/// error and changes nothing.
pub fn set_fallback(fallback: &mut FallbackLocale, tag: &str) -> (report: Result<bool, Error>)
    ensures
        match parse_spec(tag@) {
            Ok(locale) => report == Ok::<bool, Error>(old(fallback)@ is None) && final(fallback)@
                == fallback_after_set(old(fallback)@, locale),
            Err(error) => report is Err && report->Err_0@ == error && final(fallback)@ == old(
                fallback,
            )@,
        },
{
    match Locale::parse(tag) {
        Ok(locale) => Ok(fallback.set(locale)),
        Err(error) => Err(error),
    }
}

/// A locale string that the parser accepts resolves, whatever was detected
/// and whatever the fallback is, to the identifier the parser gives for it;
/// once stored, the context reports that identifier, tag for tag, whatever
/// it held before.
pub proof fn lemma_valid_locale_round_trips(
    text: Seq<char>,
    detected: Option<Seq<char>>,
    fallback: Option<LocaleView>,
    before: LocaleStateView,
)
    requires
        langid_parse(text) is Ok,
    ensures
        resolve_spec(Some(text), detected, fallback) == Ok::<LocaleView, ErrorView>(
            langid_parse(text)->Ok_0,
        ),
        effective_locale(
            state_after(before, resolve_spec(Some(text), detected, fallback)),
            fallback,
        ) == langid_parse(text)->Ok_0,
        tag_of(
            effective_locale(
                state_after(before, resolve_spec(Some(text), detected, fallback)),
                fallback,
            ),
        ) == tag_of(langid_parse(text)->Ok_0),
{
}

/// A locale string that the parser accepts, and whose identifier reads back
/// from its own tag, round-trips through that tag: resolving the tag gives
/// the same identifier, and a context that stores first the one outcome and
/// then the other reports that tag again.
pub proof fn lemma_round_trip_through_tag(
    text: Seq<char>,
    detected: Option<Seq<char>>,
    fallback: Option<LocaleView>,
    before: LocaleStateView,
)
    requires
        langid_parse(text) is Ok,
        reads_back_spec(langid_parse(text)->Ok_0),
    ensures
        ({
            let locale = langid_parse(text)->Ok_0;
            let tag = tag_of(locale);
            let first = state_after(before, resolve_spec(Some(text), detected, fallback));
            let second = state_after(first, resolve_spec(Some(tag), detected, fallback));
            &&& tag_of(effective_locale(first, fallback)) == tag
            &&& resolve_spec(Some(tag), detected, fallback) == Ok::<LocaleView, ErrorView>(locale)
            &&& effective_locale(second, fallback) == locale
            &&& tag_of(effective_locale(second, fallback)) == tag
        }),
{
}

/// A locale string that the parser refuses fails to resolve, with an error
/// that carries the string and the parser's reason, and storing that outcome
/// leaves the state of the context as it was.
pub proof fn lemma_malformed_locale_changes_nothing(
    text: Seq<char>,
    detected: Option<Seq<char>>,
    fallback: Option<LocaleView>,
    before: LocaleStateView,
)
    requires
        langid_parse(text) is Err,
    ensures
        resolve_spec(Some(text), detected, fallback) == Err::<LocaleView, ErrorView>(
            ErrorView::LocaleParseError { locale: text, source: langid_parse(text)->Err_0 },
        ),
        state_after(before, resolve_spec(Some(text), detected, fallback)) == before,
{
}

/// With no locale string, nothing detected and no fallback, resolution
/// yields the default locale, whose tag is `en-US`.
pub proof fn lemma_unset_resolves_to_en_us()
    ensures
        resolve_spec(None, None, None) == Ok::<LocaleView, ErrorView>(default_locale_view()),
        tag_of(default_locale_view()) == "en-US"@,
{
    reveal_strlit("en");
    reveal_strlit("US");
    reveal_strlit("en-US");
    assert(hyphenated_all(Seq::<Seq<char>>::empty()) == Seq::<char>::empty());
    assert(tag_of(default_locale_view()) =~= "en-US"@);
}

/// Once a fallback is set, setting another changes nothing: without a
/// locale string and with nothing detected, resolution reports the first.
pub proof fn lemma_fallback_first_set_wins(
    before: Option<LocaleView>,
    first: LocaleView,
    second: LocaleView,
)
    ensures
        fallback_after_set(fallback_after_set(before, first), second) == fallback_after_set(
            before,
            first,
        ),
        resolve_spec(None, None, fallback_after_set(fallback_after_set(None, first), second))
            == Ok::<LocaleView, ErrorView>(first),
{
}

/// Two contexts that each store a locale report each its own, whatever the
/// other stored and whatever the fallback is.
pub proof fn lemma_contexts_are_isolated(
    one: LocaleStateView,
    other: LocaleStateView,
    mine: LocaleView,
    theirs: LocaleView,
    fallback: Option<LocaleView>,
)
    ensures
        effective_locale(state_after(one, Ok(mine)), fallback) == mine,
        effective_locale(state_after(other, Ok(theirs)), fallback) == theirs,
        state_after(one, Ok(mine)).raw_mode == one.raw_mode,
        state_after(other, Ok(theirs)).raw_mode == other.raw_mode,
{
}

} // verus!

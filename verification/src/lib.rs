//! Locale resolution and parameterised message lookup on top of a Fluent
//! translation catalog.
//!
//! The crate keeps no global state: the per-context locale lives in a
//! [`LocaleState`], the write-once fallback in a [`FallbackLocale`], and the
//! catalog is handed to every lookup explicitly.

pub mod args;
pub mod error;
pub mod locale;
pub mod lookup;
pub mod value;

pub use args::Args;
pub use error::{message_text, Error};
pub use locale::{
    get_locale, resolve, set_fallback, set_locale, set_raw_mode, FallbackLocale, Locale,
    LocaleState,
};
pub use lookup::{lookup, lookup_target, lookup_with_args, missing_key_message, render};
pub use value::{PathBytes, ToFluentValue, Value};

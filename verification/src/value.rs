//! Values that can be handed to a message as arguments.

use std::borrow::Cow;
use vstd::prelude::*;
use vstd::string::*;
use vstd::utf8::*;

verus! {

/// Mathematical model of a [`Value`].
pub enum ValueView {
    Text(Seq<char>),
    Number(int),
    Absent,
}

/// A value for interpolation into a message.
#[derive(Debug, PartialEq, Eq)]
pub enum Value {
    /// A piece of text.
    Text(String),
    /// A whole number.
    Number(i128),
    /// No value at all, which is not the same as an empty text.
    Absent,
}

impl View for Value {
    type V = ValueView;

    open spec fn view(&self) -> ValueView {
        match self {
            Value::Text(text) => ValueView::Text(text@),
            Value::Number(n) => ValueView::Number(*n as int),
            Value::Absent => ValueView::Absent,
        }
    }
}

impl Clone for Value {
    fn clone(&self) -> (copy: Value)
        ensures
            copy@ == self@,
    {
        match self {
            Value::Text(text) => Value::Text(text.clone()),
            Value::Number(n) => Value::Number(*n),
            Value::Absent => Value::Absent,
        }
    }
}

/// What `String::from_utf8_lossy` makes of a byte sequence.
pub uninterp spec fn utf8_lossy(bytes: Seq<u8>) -> Seq<char>;

/// Calls `String::from_utf8_lossy` and takes ownership of the result.
///
/// Trusted: the text is a function of the bytes alone, named [`utf8_lossy`],
/// and bytes that are valid UTF-8 come back as the text they encode.
#[verifier::external_body]
fn lossy_text(bytes: &[u8]) -> (text: String)
    ensures
        text@ == utf8_lossy(bytes@),
        valid_utf8(bytes@) ==> text@ == decode_utf8(bytes@),
{
    String::from_utf8_lossy(bytes).into_owned()
}

/// The text that stands for a path made of `bytes`: the text they encode
/// where they are valid UTF-8, else what lossy conversion makes of them.
pub open spec fn path_text(bytes: Seq<u8>) -> Seq<char> {
    if valid_utf8(bytes) {
        decode_utf8(bytes)
    } else {
        utf8_lossy(bytes)
    }
}

/// A path written as a text converts back to that text.
pub proof fn lemma_text_path_keeps_its_text(text: Seq<char>)
    ensures
        path_text(encode_utf8(text)) == text,
{
    encode_utf8_valid_utf8(text);
    encode_utf8_decode_utf8(text);
}

/// A filesystem path as the bytes it is made of, which need not be valid
/// UTF-8.
#[derive(Debug, PartialEq, Eq)]
pub struct PathBytes {
    bytes: Vec<u8>,
}

impl View for PathBytes {
    type V = Seq<u8>;

    closed spec fn view(&self) -> Seq<u8> {
        self.bytes@
    }
}

impl PathBytes {
    /// The path made of `bytes`.
    pub fn new(bytes: Vec<u8>) -> (path: PathBytes)
        ensures
            path@ == bytes@,
    {
        PathBytes { bytes }
    }

    /// The path written as `text`.
    pub fn from_text(text: &str) -> (path: PathBytes)
        ensures
            path@ == encode_utf8(text@),
    {
        PathBytes { bytes: text.as_bytes_vec() }
    }

    /// The path as text, each invalid byte sequence replaced.
    pub fn to_text_lossy(&self) -> (text: String)
        ensures
            text@ == path_text(self@),
    {
        lossy_text(self.bytes.as_slice())
    }
}

/// Conversion of a host value into a [`Value`].
pub trait ToFluentValue {
    /// The value this converts to.
    spec fn fluent_view(&self) -> ValueView;

    /// Converts the value to a [`Value`].
    fn to_fluent_value(&self) -> (value: Value)
        ensures
            value@ == self.fluent_view(),
    ;
}

impl ToFluentValue for Value {
    open spec fn fluent_view(&self) -> ValueView {
        self@
    }

    fn to_fluent_value(&self) -> (value: Value) {
        self.clone()
    }
}

impl ToFluentValue for String {
    open spec fn fluent_view(&self) -> ValueView {
        ValueView::Text(self@)
    }

    fn to_fluent_value(&self) -> (value: Value) {
        Value::Text(self.clone())
    }
}

impl ToFluentValue for str {
    open spec fn fluent_view(&self) -> ValueView {
        ValueView::Text(self@)
    }

    fn to_fluent_value(&self) -> (value: Value) {
        Value::Text(String::from_str(self))
    }
}

impl<'a> ToFluentValue for Cow<'a, str> {
    open spec fn fluent_view(&self) -> ValueView {
        ValueView::Text(self@)
    }

    fn to_fluent_value(&self) -> (value: Value) {
        match self {
            Cow::Borrowed(text) => Value::Text(String::from_str(text)),
            Cow::Owned(text) => Value::Text(text.clone()),
        }
    }
}

impl<T: ToFluentValue + ?Sized> ToFluentValue for &T {
    /// A reference converts as what it refers to.
    open spec fn fluent_view(&self) -> ValueView {
        (**self).fluent_view()
    }

    fn to_fluent_value(&self) -> (value: Value) {
        (**self).to_fluent_value()
    }
}

impl ToFluentValue for PathBytes {
    /// A path converts to its text, each invalid byte sequence replaced.
    open spec fn fluent_view(&self) -> ValueView {
        ValueView::Text(path_text(self@))
    }

    fn to_fluent_value(&self) -> (value: Value) {
        Value::Text(self.to_text_lossy())
    }
}

impl<T: ToFluentValue> ToFluentValue for Option<T> {
    /// An absent value converts to [`Value::Absent`], a present one as its
    /// content does.
    open spec fn fluent_view(&self) -> ValueView {
        match self {
            Some(value) => value.fluent_view(),
            None => ValueView::Absent,
        }
    }

    fn to_fluent_value(&self) -> (value: Value) {
        match self {
            Some(value) => value.to_fluent_value(),
            None => Value::Absent,
        }
    }
}

impl ToFluentValue for usize {
    open spec fn fluent_view(&self) -> ValueView {
        ValueView::Number(*self as int)
    }

    fn to_fluent_value(&self) -> (value: Value) {
        Value::Number(*self as i128)
    }
}

impl ToFluentValue for u8 {
    open spec fn fluent_view(&self) -> ValueView {
        ValueView::Number(*self as int)
    }

    fn to_fluent_value(&self) -> (value: Value) {
        Value::Number(*self as i128)
    }
}

impl ToFluentValue for u16 {
    open spec fn fluent_view(&self) -> ValueView {
        ValueView::Number(*self as int)
    }

    fn to_fluent_value(&self) -> (value: Value) {
        Value::Number(*self as i128)
    }
}

impl ToFluentValue for u32 {
    open spec fn fluent_view(&self) -> ValueView {
        ValueView::Number(*self as int)
    }

    fn to_fluent_value(&self) -> (value: Value) {
        Value::Number(*self as i128)
    }
}

impl ToFluentValue for u64 {
    open spec fn fluent_view(&self) -> ValueView {
        ValueView::Number(*self as int)
    }

    fn to_fluent_value(&self) -> (value: Value) {
        Value::Number(*self as i128)
    }
}

impl ToFluentValue for i8 {
    open spec fn fluent_view(&self) -> ValueView {
        ValueView::Number(*self as int)
    }

    fn to_fluent_value(&self) -> (value: Value) {
        Value::Number(*self as i128)
    }
}

impl ToFluentValue for i16 {
    open spec fn fluent_view(&self) -> ValueView {
        ValueView::Number(*self as int)
    }

    fn to_fluent_value(&self) -> (value: Value) {
        Value::Number(*self as i128)
    }
}

impl ToFluentValue for i32 {
    open spec fn fluent_view(&self) -> ValueView {
        ValueView::Number(*self as int)
    }

    fn to_fluent_value(&self) -> (value: Value) {
        Value::Number(*self as i128)
    }
}

impl ToFluentValue for i64 {
    open spec fn fluent_view(&self) -> ValueView {
        ValueView::Number(*self as int)
    }

    fn to_fluent_value(&self) -> (value: Value) {
        Value::Number(*self as i128)
    }
}

impl ToFluentValue for isize {
    open spec fn fluent_view(&self) -> ValueView {
        ValueView::Number(*self as int)
    }

    fn to_fluent_value(&self) -> (value: Value) {
        Value::Number(*self as i128)
    }
}

} // verus!

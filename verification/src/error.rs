//! The error type of this crate and the wording of its messages.

use vstd::prelude::*;
use vstd::string::*;

verus! {

/// What the operations of this crate fail with.
#[derive(Debug)]
pub enum ValuesError {
    /// A map does not hold what was asked of it; the message names the key.
    MetadataError(String),
    /// A value could not be turned into a dynamically-typed value.
    SerializationError(serde_json::Error),
}

impl ValuesError {
    /// The message of a metadata error; `None` for any other error.
    pub open spec fn metadata_text(self) -> Option<Seq<char>> {
        match self {
            ValuesError::MetadataError(message) => Some(message@),
            ValuesError::SerializationError(_) => None,
        }
    }

    /// Whether this is the error for a required `key` that a map does not
    /// hold.
    pub open spec fn is_missing_required(self, key: Seq<char>) -> bool {
        self.metadata_text() == Some(missing_required_text(key))
    }

    /// Whether this is the error for a value under `key` that could not be
    /// read as the type asked for: its message is the fixed opening for that
    /// key, followed by the decoder's own account.
    pub open spec fn is_invalid_value_for(self, key: Seq<char>) -> bool {
        match self {
            ValuesError::MetadataError(message) => invalid_value_opening(key).is_prefix_of(
                message@,
            ),
            ValuesError::SerializationError(_) => false,
        }
    }
}

/// How `{:?}` renders a string: the text that `core::fmt::Debug` for `str`
/// writes. It is a function of the string alone; its escaping rules are not
/// restated here.
pub uninterp spec fn debug_text(s: Seq<char>) -> Seq<char>;

/// The message for a required key that a map does not hold.
pub open spec fn missing_required_text(key: Seq<char>) -> Seq<char> {
    "missing required "@ + debug_text(key)
}

/// What every message about an unreadable value under `key` starts with.
pub open spec fn invalid_value_opening(key: Seq<char>) -> Seq<char> {
    "invalid value for "@ + debug_text(key) + ": "@
}

/// The message for a value under `key` that could not be read, where `detail`
/// is the decoder's account of what went wrong.
pub open spec fn invalid_value_text(key: Seq<char>, detail: Seq<char>) -> Seq<char> {
    invalid_value_opening(key) + detail
}

/// Formats a string with `{:?}`, that is through `core::fmt::Debug` for `str`.
/// Assumed: the result is [`debug_text`] of the string.
#[verifier::external_body]
pub(crate) fn debug_quoted(s: &str) -> (quoted: String)
    ensures
        quoted@ == debug_text(s@),
{
    format!("{:?}", s)
}

/// Formats a `serde_json::Error` with `{:?}`, that is through its `Debug`
/// impl. Nothing is assumed of the text.
#[verifier::external_body]
pub(crate) fn error_detail(err: &serde_json::Error) -> (detail: String) {
    format!("{:?}", err)
}

/// The error for a required key that a map does not hold.
pub fn missing_required(key: &str) -> (e: ValuesError)
    ensures
        e.is_missing_required(key@),
{
    let mut message = String::from_str("missing required ");
    let quoted = debug_quoted(key);
    message.append(quoted.as_str());
    ValuesError::MetadataError(message)
}

/// The error for a value under `key` that could not be read as the type asked
/// for, with the decoder's account `detail`.
pub fn invalid_value(key: &str, detail: &str) -> (e: ValuesError)
    ensures
        e.metadata_text() == Some(invalid_value_text(key@, detail@)),
        e.is_invalid_value_for(key@),
{
    let mut message = String::from_str("invalid value for ");
    let quoted = debug_quoted(key);
    message.append(quoted.as_str());
    message.append(": ");
    message.append(detail);
    ValuesError::MetadataError(message)
}

} // verus!

//! Error types of the data store, with the messages they display.

use vstd::prelude::*;
use vstd::std_specs::convert::FromSpecImpl;

verus! {

/// An I/O error of `std::io`.
#[verifier::external_type_specification]
#[verifier::external_body]
pub struct ExIoError(std::io::Error);

/// A captured stack backtrace of `std::backtrace`.
#[verifier::external_type_specification]
#[verifier::external_body]
pub struct ExBacktrace(std::backtrace::Backtrace);

/// What `{:?}` writes for a string: the string in double quotes, with its
/// special characters escaped.
pub uninterp spec fn debug_str(s: Seq<char>) -> Seq<char>;

/// The `Debug` text of a string.
///
/// Calls `<str as Debug>::fmt` through `format!`. The contract claims that
/// the text depends on the string alone, as `debug_str` of its characters;
/// which characters are escaped and how is left unsaid.
#[verifier::external_body]
fn debug_text(s: &str) -> (r: String)
    ensures
        r@ == debug_str(s@),
{
    format!("{:?}", s)
}

/// A backtrace of the current thread, captured if the environment asks for
/// backtraces.
///
/// Calls `std::backtrace::Backtrace::capture`; nothing is stated of it.
#[verifier::external_body]
fn capture_backtrace() -> std::backtrace::Backtrace {
    std::backtrace::Backtrace::capture()
}

/// Why the data store failed.
#[derive(Debug)]
pub enum DataStoreError {
    Disconnect(std::io::Error),
    Redaction(String),
    InvalidHeader { expected: String, found: String },
    Unknown,
}

/// The message of a redacted key: the key in backquotes.
pub open spec fn redaction_message(key: Seq<char>) -> Seq<char> {
    "the data for key `"@ + key + "` is not available"@
}

/// The message of a bad header, from the `Debug` texts of what was
/// expected and what was found.
pub open spec fn invalid_header_message(expected_debug: Seq<char>, found_debug: Seq<char>) -> Seq<
    char,
> {
    "invalid header (expected "@ + expected_debug + ", found "@ + found_debug + ")"@
}

/// The message of a bad header, given the `Debug` texts of what was
/// expected and what was found.
pub fn invalid_header_text(expected_debug: &str, found_debug: &str) -> (r: String)
    ensures
        r@ == invalid_header_message(expected_debug@, found_debug@),
{
    let mut s = String::from_str("invalid header (expected ");
    s.append(expected_debug);
    s.append(", found ");
    s.append(found_debug);
    s.append(")");
    s
}

impl DataStoreError {
    /// The message that the error displays.
    pub fn to_string(&self) -> (r: String)
        ensures
            r@ == match self {
                DataStoreError::Disconnect(_) => "data store disconnected"@,
                DataStoreError::Redaction(key) => redaction_message(key@),
                DataStoreError::InvalidHeader { expected, found } => invalid_header_message(
                    debug_str(expected@),
                    debug_str(found@),
                ),
                DataStoreError::Unknown => "unknown data store error"@,
            },
    {
        match self {
            DataStoreError::Disconnect(_) => String::from_str("data store disconnected"),
            DataStoreError::Redaction(key) => {
                let mut s = String::from_str("the data for key `");
                s.append(key.as_str());
                s.append("` is not available");
                s
            },
            DataStoreError::InvalidHeader { expected, found } => {
                let e = debug_text(expected.as_str());
                let f = debug_text(found.as_str());
                invalid_header_text(e.as_str(), f.as_str())
            },
            DataStoreError::Unknown => String::from_str("unknown data store error"),
        }
    }
}

impl From<std::io::Error> for DataStoreError {
    fn from(source: std::io::Error) -> (r: Self) {
        DataStoreError::Disconnect(source)
    }
}

impl FromSpecImpl<std::io::Error> for DataStoreError {
    open spec fn obeys_from_spec() -> bool {
        true
    }

    open spec fn from_spec(source: std::io::Error) -> DataStoreError {
        DataStoreError::Disconnect(source)
    }
}

/// An I/O failure, with the backtrace of where it was turned into this
/// error.
#[derive(Debug)]
pub enum MyError1 {
    Io { source: std::io::Error, backtrace: std::backtrace::Backtrace },
}

impl MyError1 {
    /// Wraps an I/O error, capturing a backtrace here, as the conversion
    /// from `std::io::Error` does.
    pub fn from_io(source: std::io::Error) -> (r: Self)
        ensures
            r matches MyError1::Io { source: s, .. } && s == source,
    {
        MyError1::Io { source, backtrace: capture_backtrace() }
    }

    /// The message that the error displays.
    pub fn to_string(&self) -> (r: String)
        ensures
            r@ == "Hello world"@,
    {
        String::from_str("Hello world")
    }
}

/// An error with a message and the backtrace of where it arose.
#[derive(Debug)]
pub struct MyError2 {
    msg: String,
    backtrace: std::backtrace::Backtrace,
}

} // verus!

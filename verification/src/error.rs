//! The library's error type and the rules that turn the native engine's
//! status codes into results.

use vstd::prelude::*;

use crate::decimal::{decimal, decimal_string, signed_decimal, signed_decimal_string};

verus! {

/// Errors returned by the library.
#[derive(Debug, Clone, PartialEq, Eq)]
pub enum Error {
    /// The native engine returned a non-zero status `code`; `message` is the
    /// engine's text for that code.
    ApiError { code: i32, message: String },
    /// A stream handle was used after it was closed.
    InvalidHandle,
    /// The native engine returned no data where data was expected.
    NullPointer,
    /// A string could not be passed as a C string: its UTF-8 encoding holds a
    /// zero byte at `position`.
    NulError { position: usize },
}

/// The text of an error, as its `Display` writes it.
pub open spec fn error_text(e: Error) -> Seq<char> {
    match e {
        Error::ApiError { code, message } => "Moonshine C API error ("@ + signed_decimal(code as int) + "): "@
            + message@,
        Error::InvalidHandle => "Invalid transcriber handle"@,
        Error::NullPointer => "Null pointer returned from Moonshine API"@,
        Error::NulError { position } => "Nul byte in CString conversion: nul byte found in provided data at position: "@
            + decimal(position as nat),
    }
}

impl Error {
    /// The text of this error, as its `Display` writes it.
    pub fn display_text(&self) -> (t: String)
        ensures
            t@ == error_text(*self),
    {
        match self {
            Error::ApiError { code, message } => {
                let mut t = "Moonshine C API error (".to_owned();
                let digits = signed_decimal_string(*code);
                t.append(digits.as_str());
                t.append("): ");
                t.append(message.as_str());
                t
            },
            Error::InvalidHandle => "Invalid transcriber handle".to_owned(),
            Error::NullPointer => "Null pointer returned from Moonshine API".to_owned(),
            Error::NulError { position } => {
                let mut t = "Nul byte in CString conversion: nul byte found in provided data at position: ".to_owned();
                let digits = decimal_string(*position as u64);
                t.append(digits.as_str());
                t
            },
        }
    }
}

/// `Result` with the library's [`Error`].
pub type Result<T> = std::result::Result<T, Error>;

/// True when `e` is the engine error with this code and message.
pub open spec fn is_api_error(e: Error, code: i32, message: Seq<char>) -> bool {
    match e {
        Error::ApiError { code: c, message: m } => c == code && m@ == message,
        _ => false,
    }
}

/// Maps a native status code: zero is success, anything else is an
/// [`Error::ApiError`] carrying the code and the engine's message for it.
pub fn check_status(code: i32, message: String) -> (r: Result<()>)
    ensures
        code == 0 <==> r is Ok,
        r matches Err(e) ==> is_api_error(e, code, message@),
{
    if code != 0 {
        Err(Error::ApiError { code, message })
    } else {
        Ok(())
    }
}

/// Maps a native handle: non-negative values are handles, negative values
/// are error codes.
pub fn check_handle(code: i32, message: String) -> (r: Result<i32>)
    ensures
        code >= 0 <==> r is Ok,
        r matches Ok(h) ==> h == code,
        r matches Err(e) ==> is_api_error(e, code, message@),
{
    if code < 0 {
        Err(Error::ApiError { code, message })
    } else {
        Ok(code)
    }
}

/// An engine error raised by the library itself rather than the engine
/// (code `-1`).
pub fn local_error(message: String) -> (e: Error)
    ensures
        is_api_error(e, -1i32, message@),
{
    Error::ApiError { code: -1, message }
}

/// The sample rate reported by the engine, with negative values read as 0.
pub fn sample_rate_from_native(rate: i32) -> (r: u32)
    ensures
        rate < 0 ==> r == 0,
        rate >= 0 ==> r == rate,
{
    if rate < 0 {
        0
    } else {
        rate as u32
    }
}

/// What a text-returning engine call yields when it reports success but
/// hands back no buffer.
#[derive(Debug, Clone, Copy, PartialEq, Eq)]
pub enum MissingText {
    /// Fail with [`Error::NullPointer`].
    Fail,
    /// Yield the empty string.
    Empty,
    /// Yield the empty JSON object `{}`.
    EmptyObject,
}

/// The character view of an optional string.
pub open spec fn optional_text(t: Option<String>) -> Option<Seq<char>> {
    match t {
        Some(s) => Some(s@),
        None => None,
    }
}

/// The result of a text-returning engine call, as a function of its status,
/// the text it produced (`None` for no buffer) and the policy for a missing
/// buffer.
pub open spec fn text_output(code: i32, text: Option<Seq<char>>, missing: MissingText) -> Option<Seq<char>> {
    if code != 0 {
        None
    } else {
        match text {
            Some(t) => Some(t),
            None => match missing {
                MissingText::Fail => None,
                MissingText::Empty => Some(Seq::empty()),
                MissingText::EmptyObject => Some(seq!['{', '}']),
            },
        }
    }
}

/// Turns the outcome of a text-returning engine call into the caller's
/// result: the status is checked first, then a missing buffer is handled as
/// `missing` says.
pub fn finish_text_output(
    code: i32,
    text: Option<String>,
    missing: MissingText,
    message: String,
) -> (r: Result<String>)
    ensures
        r is Ok <==> text_output(code, optional_text(text), missing) is Some,
        r matches Ok(s) ==> text_output(code, optional_text(text), missing) == Some(s@),
        code != 0 ==> (r matches Err(e) && is_api_error(e, code, message@)),
        code == 0 && r is Err ==> r == Err::<String, Error>(Error::NullPointer),
{
    if code != 0 {
        return Err(Error::ApiError { code, message });
    }
    match text {
        Some(t) => Ok(t),
        None => match missing {
            MissingText::Fail => Err(Error::NullPointer),
            MissingText::Empty => Ok(String::new()),
            MissingText::EmptyObject => {
                let s = "{}";
                proof {
                    reveal_strlit("{}");
                }
                Ok(s.to_owned())
            },
        },
    }
}

/// The message used for an error code the engine has no text for.
pub fn unknown_error_message(code: i32) -> (m: String)
    ensures
        m@ == "Unknown error "@ + signed_decimal(code as int),
{
    let mut m = "Unknown error ".to_owned();
    let digits = signed_decimal_string(code);
    m.append(digits.as_str());
    m
}

} // verus!

use vstd::prelude::*;
use vstd::string::{to_string_from_display_ensures, StringExecFns};
use crate::decimal::{i32_of_text, parse_i32};

verus! {

#[verifier::external_type_specification]
#[verifier::external_body]
pub struct ExIoError(std::io::Error);

/// One error type for every failure of the library's fallible operations.
///
/// The two wrapped variants keep their cause and, next to it, the cause's
/// message as it was rendered when the error was built: the value never
/// changes afterwards, so it always reports the same text.
#[derive(Debug)]
#[allow(inconsistent_fields)]
pub enum UnifiedError {
    /// An input/output operation failed.
    IoFailure { cause: std::io::Error, detail: String },
    /// A text could not be read as an integer.
    ParseFailure { cause: std::num::ParseIntError, detail: String },
    /// A value was read but broke a rule of the domain.
    ValidationFailure(String),
}

impl UnifiedError {
    /// The text that `describe` produces.
    pub open spec fn message(&self) -> Seq<char> {
        match self {
            UnifiedError::IoFailure { detail, .. } => "IO error: "@ + detail@,
            UnifiedError::ParseFailure { detail, .. } => "Parse error: "@ + detail@,
            UnifiedError::ValidationFailure(m) => "Custom error: "@ + m@,
        }
    }

    /// Wraps a failed input/output operation, keeping the cause and its
    /// `Display` text.
    pub fn from_io(cause: std::io::Error) -> (r: UnifiedError)
        ensures
            r matches UnifiedError::IoFailure { cause: c, detail: d } && c == cause
                && to_string_from_display_ensures::<std::io::Error>(&cause, d),
    {
        let detail = cause.to_string();
        UnifiedError::IoFailure { cause, detail }
    }

    /// Wraps a failed integer parse, keeping the cause and its `Display` text.
    pub fn from_parse(cause: std::num::ParseIntError) -> (r: UnifiedError)
        ensures
            r matches UnifiedError::ParseFailure { cause: c, detail: d } && c == cause
                && to_string_from_display_ensures::<std::num::ParseIntError>(&cause, d),
    {
        let detail = cause.to_string();
        UnifiedError::ParseFailure { cause, detail }
    }

    /// A failure of a domain rule, carrying `message`.
    pub fn validation(message: String) -> (r: UnifiedError)
        ensures
            r == UnifiedError::ValidationFailure(message),
    {
        UnifiedError::ValidationFailure(message)
    }

    /// A human-readable message: the variant's prefix followed by the cause's
    /// text or the validation message.
    pub fn describe(&self) -> (r: String)
        ensures
            r@ == self.message(),
    {
        match self {
            UnifiedError::IoFailure { detail, .. } => {
                let mut out = String::from_str("IO error: ");
                out.append(detail.as_str());
                out
            },
            UnifiedError::ParseFailure { detail, .. } => {
                let mut out = String::from_str("Parse error: ");
                out.append(detail.as_str());
                out
            },
            UnifiedError::ValidationFailure(m) => {
                let mut out = String::from_str("Custom error: ");
                out.append(m.as_str());
                out
            },
        }
    }
}

/// The stored message is tied to the cause only by vstd's relation for
/// `to_string`, which is no spec function of the cause, so no exact result is
/// claimed here; `from` itself states the variant, the cause and that relation.
impl vstd::std_specs::convert::FromSpecImpl<std::io::Error> for UnifiedError {
    open spec fn obeys_from_spec() -> bool {
        false
    }

    open spec fn from_spec(v: std::io::Error) -> UnifiedError {
        arbitrary()
    }
}

impl From<std::io::Error> for UnifiedError {
    fn from(cause: std::io::Error) -> (r: UnifiedError)
        ensures
            r matches UnifiedError::IoFailure { cause: c, detail: d } && c == cause
                && to_string_from_display_ensures::<std::io::Error>(&cause, d),
    {
        UnifiedError::from_io(cause)
    }
}

/// The stored message is tied to the cause only by vstd's relation for
/// `to_string`, which is no spec function of the cause, so no exact result is
/// claimed here; `from` itself states the variant, the cause and that relation.
impl vstd::std_specs::convert::FromSpecImpl<std::num::ParseIntError> for UnifiedError {
    open spec fn obeys_from_spec() -> bool {
        false
    }

    open spec fn from_spec(v: std::num::ParseIntError) -> UnifiedError {
        arbitrary()
    }
}

impl From<std::num::ParseIntError> for UnifiedError {
    fn from(cause: std::num::ParseIntError) -> (r: UnifiedError)
        ensures
            r matches UnifiedError::ParseFailure { cause: c, detail: d } && c == cause
                && to_string_from_display_ensures::<std::num::ParseIntError>(&cause, d),
    {
        UnifiedError::from_parse(cause)
    }
}

/// Reads `s` as an `i32`, keeping its sign, and turns a malformed or
/// out-of-range text into a `ParseFailure`.
pub fn parse_signed(s: &str) -> (r: Result<i32, UnifiedError>)
    ensures
        match r {
            Ok(v) => i32_of_text(s@) == Some(v as int),
            Err(e) => i32_of_text(s@) is None && e is ParseFailure,
        },
{
    match parse_i32(s) {
        Ok(v) => Ok(v),
        Err(cause) => Err(UnifiedError::from_parse(cause)),
    }
}

/// `r` is the outcome of reading `s` as a non-negative `i32`: a `ParseFailure`
/// when `s` is no `i32`, a `ValidationFailure` saying `negative value rejected`
/// when it is negative, and the value otherwise.
pub open spec fn is_bounded_parse(s: Seq<char>, r: Result<i32, UnifiedError>) -> bool {
    match i32_of_text(s) {
        None => r matches Err(e) && e is ParseFailure,
        Some(v) => if v < 0 {
            r matches Err(e) && e is ValidationFailure && e->ValidationFailure_0@
                == "negative value rejected"@
        } else {
            r matches Ok(n) && n == v
        },
    }
}

/// Reads `s` as a non-negative `i32`.
pub fn parse_bounded_number(s: &str) -> (r: Result<i32, UnifiedError>)
    ensures
        is_bounded_parse(s@, r),
{
    let num = parse_signed(s)?;
    if num < 0 {
        return Err(UnifiedError::validation(String::from_str("negative value rejected")));
    }
    Ok(num)
}

/// Reads `s` as a non-negative `i32`; the same operation as
/// `parse_bounded_number`, under its shorter name.
pub fn parse_number(s: &str) -> (r: Result<i32, UnifiedError>)
    ensures
        is_bounded_parse(s@, r),
{
    parse_bounded_number(s)
}

/// Every error built from an input/output failure describes itself with the
/// prefix `IO error: `.
pub proof fn io_message_prefix(e: UnifiedError)
    requires
        e is IoFailure,
    ensures
        "IO error: "@.is_prefix_of(e.message()),
{
    assert(e.message().subrange(0, "IO error: "@.len() as int) =~= "IO error: "@);
}

/// Every error built from a parse failure describes itself with the prefix
/// `Parse error: `.
pub proof fn parse_message_prefix(e: UnifiedError)
    requires
        e is ParseFailure,
    ensures
        "Parse error: "@.is_prefix_of(e.message()),
{
    assert(e.message().subrange(0, "Parse error: "@.len() as int) =~= "Parse error: "@);
}

/// A validation failure carrying `m` describes itself as `Custom error: `
/// followed by exactly `m`.
pub proof fn validation_message(m: String)
    ensures
        UnifiedError::ValidationFailure(m).message() == "Custom error: "@ + m@,
{
}

/// Describing the same error twice gives the same text: `describe` depends on
/// the value alone and leaves it unchanged.
pub proof fn describe_is_stable(e: UnifiedError, first: String, second: String)
    requires
        first@ == e.message(),
        second@ == e.message(),
    ensures
        first@ == second@,
{
}

} // verus!

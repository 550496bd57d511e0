//! Error codes of the plugin API and errors with an optional message.
use vstd::prelude::*;
use vstd::string::{StringExecFns, StringSliceAdditionalSpecFns};
use vstd::utf8::*;

use crate::string::{is_c_literal, ValidCStr, ValidCString};
use crate::sys::{
    PluginHost, ERR_CUSTOM_ANY, ERR_ENUM_DEFAULT_OFFSET, ERR_FEATURE_UNSUPPORTED,
    ERR_INVALID_INPUT, ERR_INVALID_LEGACY, ERR_INVALID_MOVE, ERR_INVALID_OPTIONS,
    ERR_INVALID_PLAYER, ERR_INVALID_STATE, ERR_MISSING_HIDDEN_STATE, ERR_OK, ERR_OUT_OF_MEMORY,
    ERR_RETRY, ERR_STATE_CORRUPTED, ERR_STATE_UNRECOVERABLE, ERR_UNSTABLE_POSITION,
};

verus! {

/// A custom error code of a plugin: never below `ERR_ENUM_DEFAULT_OFFSET`.
#[derive(Clone, Copy, Debug, PartialEq, Eq, Structural)]
pub struct CustomCode {
    code: u32,
}

impl CustomCode {
    #[verifier::type_invariant]
    spec fn inv(self) -> bool {
        self.code >= ERR_ENUM_DEFAULT_OFFSET
    }

    /// The numeric value.
    pub closed spec fn spec_get(self) -> u32 {
        self.code
    }

    /// Wraps `code`, or `None` if it lies below `ERR_ENUM_DEFAULT_OFFSET`.
    pub fn new(code: u32) -> (r: Option<Self>)
        ensures
            r is Some <==> code >= ERR_ENUM_DEFAULT_OFFSET,
            r matches Some(c) ==> c.spec_get() == code,
    {
        if code >= ERR_ENUM_DEFAULT_OFFSET {
            Some(CustomCode { code })
        } else {
            None
        }
    }

    /// The numeric value, unchanged.
    pub fn get(&self) -> (r: u32)
        ensures
            r == self.spec_get(),
            r >= ERR_ENUM_DEFAULT_OFFSET,
    {
        proof {
            use_type_invariant(self);
        }
        self.code
    }

    /// Two custom codes with the same value are the same.
    pub proof fn lemma_get_injective(a: CustomCode, b: CustomCode)
        requires
            a.spec_get() == b.spec_get(),
        ensures
            a == b,
    {
    }
}

/// The error codes of the plugin API.
#[derive(Clone, Copy, Debug, PartialEq, Eq, Structural)]
#[non_exhaustive]
pub enum ErrorCode {
    StateUnrecoverable,
    StateCorrupted,
    OutOfMemory,
    FeatureUnsupported,
    MissingHiddenState,
    InvalidInput,
    InvalidPlayer,
    InvalidMove,
    InvalidOptions,
    InvalidLegacy,
    InvalidState,
    UnstablePosition,
    Retry,
    CustomAny,
    Custom(CustomCode),
}

impl ErrorCode {
    /// A custom code holds a value at or above `ERR_ENUM_DEFAULT_OFFSET`, as
    /// every `CustomCode` does.
    pub open spec fn wf(self) -> bool {
        self matches ErrorCode::Custom(c) ==> c.spec_get() >= ERR_ENUM_DEFAULT_OFFSET
    }

    /// The numeric encoding.
    pub open spec fn spec_code(self) -> u32 {
        match self {
            ErrorCode::StateUnrecoverable => ERR_STATE_UNRECOVERABLE,
            ErrorCode::StateCorrupted => ERR_STATE_CORRUPTED,
            ErrorCode::OutOfMemory => ERR_OUT_OF_MEMORY,
            ErrorCode::FeatureUnsupported => ERR_FEATURE_UNSUPPORTED,
            ErrorCode::MissingHiddenState => ERR_MISSING_HIDDEN_STATE,
            ErrorCode::InvalidInput => ERR_INVALID_INPUT,
            ErrorCode::InvalidPlayer => ERR_INVALID_PLAYER,
            ErrorCode::InvalidMove => ERR_INVALID_MOVE,
            ErrorCode::InvalidOptions => ERR_INVALID_OPTIONS,
            ErrorCode::InvalidLegacy => ERR_INVALID_LEGACY,
            ErrorCode::InvalidState => ERR_INVALID_STATE,
            ErrorCode::UnstablePosition => ERR_UNSTABLE_POSITION,
            ErrorCode::Retry => ERR_RETRY,
            ErrorCode::CustomAny => ERR_CUSTOM_ANY,
            ErrorCode::Custom(c) => c.spec_get(),
        }
    }

    /// Decodes a nonzero code: a named variant below `ERR_ENUM_DEFAULT_OFFSET`,
    /// a custom code from there on.
    pub fn from_code(code: u32) -> (r: ErrorCode)
        requires
            code != ERR_OK,
        ensures
            r.wf(),
            r.spec_code() == code,
            r is Custom <==> code >= ERR_ENUM_DEFAULT_OFFSET,
    {
        match code {
            ERR_STATE_UNRECOVERABLE => ErrorCode::StateUnrecoverable,
            ERR_STATE_CORRUPTED => ErrorCode::StateCorrupted,
            ERR_OUT_OF_MEMORY => ErrorCode::OutOfMemory,
            ERR_FEATURE_UNSUPPORTED => ErrorCode::FeatureUnsupported,
            ERR_MISSING_HIDDEN_STATE => ErrorCode::MissingHiddenState,
            ERR_INVALID_INPUT => ErrorCode::InvalidInput,
            ERR_INVALID_PLAYER => ErrorCode::InvalidPlayer,
            ERR_INVALID_MOVE => ErrorCode::InvalidMove,
            ERR_INVALID_OPTIONS => ErrorCode::InvalidOptions,
            ERR_INVALID_LEGACY => ErrorCode::InvalidLegacy,
            ERR_INVALID_STATE => ErrorCode::InvalidState,
            ERR_UNSTABLE_POSITION => ErrorCode::UnstablePosition,
            ERR_RETRY => ErrorCode::Retry,
            ERR_CUSTOM_ANY => ErrorCode::CustomAny,
            _ => ErrorCode::Custom(CustomCode { code }),
        }
    }

    /// The numeric encoding.
    pub fn code(self) -> (r: u32)
        ensures
            r == self.spec_code(),
            r != ERR_OK,
    {
        match self {
            ErrorCode::StateUnrecoverable => ERR_STATE_UNRECOVERABLE,
            ErrorCode::StateCorrupted => ERR_STATE_CORRUPTED,
            ErrorCode::OutOfMemory => ERR_OUT_OF_MEMORY,
            ErrorCode::FeatureUnsupported => ERR_FEATURE_UNSUPPORTED,
            ErrorCode::MissingHiddenState => ERR_MISSING_HIDDEN_STATE,
            ErrorCode::InvalidInput => ERR_INVALID_INPUT,
            ErrorCode::InvalidPlayer => ERR_INVALID_PLAYER,
            ErrorCode::InvalidMove => ERR_INVALID_MOVE,
            ErrorCode::InvalidOptions => ERR_INVALID_OPTIONS,
            ErrorCode::InvalidLegacy => ERR_INVALID_LEGACY,
            ErrorCode::InvalidState => ERR_INVALID_STATE,
            ErrorCode::UnstablePosition => ERR_UNSTABLE_POSITION,
            ErrorCode::Retry => ERR_RETRY,
            ErrorCode::CustomAny => ERR_CUSTOM_ANY,
            ErrorCode::Custom(c) => c.get(),
        }
    }
}

/// Turns a code returned by the foreign side into a result: `ERR_OK` is
/// success, anything else the error it encodes.
pub fn code_to_result(code: u32) -> (r: Result<(), ErrorCode>)
    ensures
        r is Ok <==> code == ERR_OK,
        r matches Err(e) ==> e.wf() && e.spec_code() == code,
{
    if code == ERR_OK {
        Ok(())
    } else {
        Err(ErrorCode::from_code(code))
    }
}

/// Encoding is one to one, and no error code encodes to `ERR_OK`: decoding the
/// encoding of a code gives that code back.
pub proof fn lemma_code_round_trip(e: ErrorCode, d: ErrorCode)
    requires
        e.wf(),
        d.wf(),
        d.spec_code() == e.spec_code(),
    ensures
        e.spec_code() != ERR_OK,
        d == e,
{
    match (e, d) {
        (ErrorCode::Custom(a), ErrorCode::Custom(b)) => {
            CustomCode::lemma_get_injective(a, b);
        },
        _ => {},
    }
}

/// Every code from `ERR_ENUM_DEFAULT_OFFSET` on decodes to the custom code of
/// that value, and every nonzero code below it to a named variant.
pub proof fn lemma_custom_range(e: ErrorCode)
    requires
        e.wf(),
    ensures
        e.spec_code() >= ERR_ENUM_DEFAULT_OFFSET <==> e is Custom,
        e matches ErrorCode::Custom(c) ==> c.spec_get() == e.spec_code(),
{
}

/// The characters of the decimal notation of `n`.
pub open spec fn decimal(n: nat) -> Seq<char>
    decreases n,
{
    if n < 10 {
        seq![digit(n)]
    } else {
        decimal(n / 10).push(digit(n % 10))
    }
}

/// The character of a decimal digit.
pub open spec fn digit(d: nat) -> char {
    if d == 0 { '0' }
    else if d == 1 { '1' }
    else if d == 2 { '2' }
    else if d == 3 { '3' }
    else if d == 4 { '4' }
    else if d == 5 { '5' }
    else if d == 6 { '6' }
    else if d == 7 { '7' }
    else if d == 8 { '8' }
    else { '9' }
}

/// The label of a code that the foreign side cannot describe: `custom[<code>]`.
pub open spec fn custom_label(code: u32) -> Seq<char> {
    seq!['c', 'u', 's', 't', 'o', 'm', '['] + decimal(code as nat) + seq![']']
}

/// Relies on `u32::to_string` writing the value in decimal.
#[verifier::external_body]
fn decimal_text(code: u32) -> (r: String)
    ensures
        r@ == decimal(code as nat),
{
    code.to_string()
}

/// The label of a code that the foreign side cannot describe.
fn format_custom_label(code: u32) -> (r: String)
    ensures
        r@ == custom_label(code),
{
    let digits = decimal_text(code);
    let mut label = owned_text("custom[");
    label.append(digits.as_str());
    label.append("]");
    proof {
        reveal_strlit("custom[");
        reveal_strlit("]");
    }
    assert(label@ =~= custom_label(code));
    label
}

/// A `String` with the same text.
pub(crate) fn owned_text(s: &str) -> (r: String)
    ensures
        r@ == s@,
{
    s.to_owned()
}

/// Renders an error code from the description that the foreign side gave for
/// it, or from its number where it gave none.
pub fn render_error_code(code: ErrorCode, description: Option<ValidCStr<'_>>) -> (r: String)
    ensures
        match description {
            Some(s) => encode_utf8(r@) == s@ && !s@.contains(0u8),
            None => r@ == custom_label(code.spec_code()),
        },
{
    match description {
        Some(s) => owned_text(s.to_str()),
        None => format_custom_label(code.code()),
    }
}

impl ErrorCode {
    /// Human-readable text: the foreign side's description of the code, or
    /// `custom[<code>]` where it has none, or none that is valid text.
    pub fn describe<H: PluginHost>(&self, host: &H) -> (r: String)
        ensures
            r@ == custom_label(self.spec_code()) || !encode_utf8(r@).contains(0u8),
    {
        let code = self.code();
        let description = match host.general_error_string(code) {
            Some(buf) => ValidCStr::validate(buf),
            None => None,
        };
        render_error_code(*self, description)
    }
}

/// The message of an error.
pub enum ErrorString {
    /// No message.
    Absent,
    /// A literal that lives as long as the process.
    Static(ValidCStr<'static>),
    /// A message owned by the error.
    Dynamic(ValidCString),
}

impl ErrorString {
    /// No message.
    pub fn default() -> (r: Self)
        ensures
            r is Absent,
    {
        ErrorString::Absent
    }

    /// The bytes of the message, if there is one.
    pub open spec fn spec_text(&self) -> Option<Seq<u8>> {
        match self {
            ErrorString::Absent => Option::None,
            ErrorString::Static(s) => Option::Some(s@),
            ErrorString::Dynamic(s) => Option::Some(s@),
        }
    }

    /// The text of the message, if there is one.
    pub fn as_str(&self) -> (r: Option<&str>)
        ensures
            r is Some <==> self.spec_text() is Some,
            r matches Some(t) ==> self.spec_text() == Option::Some(t.spec_bytes()),
    {
        match self {
            ErrorString::Absent => None,
            ErrorString::Static(s) => Some(s.to_str()),
            ErrorString::Dynamic(s) => Some(s.as_str()),
        }
    }
}

/// An error code with an optional message.
pub struct Error {
    pub code: ErrorCode,
    pub message: ErrorString,
}

impl Error {
    /// An error with a literal message, which must end in its only NUL byte.
    pub fn new_static(code: ErrorCode, message: &'static str) -> (r: Self)
        requires
            is_c_literal(message.spec_bytes()),
        ensures
            r.code == code,
            r.message is Static,
            r.message.spec_text() == Option::Some(message.spec_bytes().drop_last()),
    {
        Error { code, message: ErrorString::Static(crate::string::cstr(message)) }
    }

    /// An error with a message of its own, which must hold no NUL byte.
    pub fn new_dynamic(code: ErrorCode, message: String) -> (r: Self)
        requires
            !encode_utf8(message@).contains(0u8),
        ensures
            r.code == code,
            r.message is Dynamic,
            r.message.spec_text() == Option::Some(encode_utf8(message@)),
    {
        match ValidCString::try_from(message) {
            Ok(s) => Error { code, message: ErrorString::Dynamic(s) },
            Err(_) => Error { code, message: ErrorString::Absent },
        }
    }

    /// An error without a message.
    pub fn from(code: ErrorCode) -> (r: Self)
        ensures
            r.code == code,
            r.message is Absent,
    {
        Error { code, message: ErrorString::Absent }
    }
}

} // verus!

//! The one error type of the transcoder, and its text.

use vstd::prelude::*;
use vstd::string::StringExecFns;
use crate::runtime::{Status, ValueType};

verus! {

/// A failed narrowing of a double; the double is given by its bit pattern.
#[derive(Clone, Copy, Debug, PartialEq, Eq, Structural)]
pub enum FloatError {
    NegOverflow(u64),
    NotANumber(u64),
    PosOverflow(u64),
}

/// A failed conversion of a signed 64-bit integer.
#[derive(Clone, Copy, Debug, PartialEq, Eq, Structural)]
pub enum RangeError {
    NegOverflow(i64),
    PosOverflow(i64),
}

/// What went wrong.
#[derive(Clone, Debug)]
pub enum ErrorKind {
    /// A free-form failure raised by the static side.
    Custom(String),
    /// A map value was asked for before its key: a bug in the caller.
    MissingKey,
    FloatError(FloatError),
    I64Error(RangeError),
    U64Error(u64),
    UsizeError(usize),
    ExpectedNull,
    ExpectedString,
    /// `deserialize_any` met a kind with no mapping.
    UnsupportedType(ValueType),
    /// A primitive operation of the runtime failed.
    Napi(Status),
}

/// Every failure of serializing or deserializing.
#[derive(Clone, Debug)]
pub struct Error {
    pub kind: ErrorKind,
}

/// The text of a failed numeric conversion.
pub open spec fn overflow_text(negative: bool) -> Seq<char> {
    if negative {
        "conversion resulted in negative overflow"@
    } else {
        "conversion resulted in positive overflow"@
    }
}

/// The name of a kind tag.
pub open spec fn kind_label(t: ValueType) -> Seq<char> {
    match t {
        ValueType::Undefined => "Undefined"@,
        ValueType::Null => "Null"@,
        ValueType::Boolean => "Boolean"@,
        ValueType::Number => "Number"@,
        ValueType::String => "String"@,
        ValueType::Symbol => "Symbol"@,
        ValueType::Object => "Object"@,
        ValueType::Function => "Function"@,
        ValueType::External => "External"@,
        ValueType::BigInt => "BigInt"@,
    }
}

/// The name of a status.
pub open spec fn status_name(s: Status) -> Seq<char> {
    match s {
        Status::InvalidArg => "InvalidArg"@,
        Status::ObjectExpected => "ObjectExpected"@,
        Status::StringExpected => "StringExpected"@,
        Status::NameExpected => "NameExpected"@,
        Status::NumberExpected => "NumberExpected"@,
        Status::BooleanExpected => "BooleanExpected"@,
        Status::ArrayExpected => "ArrayExpected"@,
        Status::GenericFailure => "GenericFailure"@,
        Status::PendingException => "PendingException"@,
        Status::BigintExpected => "BigintExpected"@,
    }
}

/// The text an error is reported with.
pub open spec fn message_of(kind: ErrorKind) -> Seq<char> {
    match kind {
        ErrorKind::Custom(m) => m@,
        ErrorKind::MissingKey => "MissingKey"@,
        ErrorKind::FloatError(FloatError::NotANumber(_)) => "conversion target does not support not-a-number"@,
        ErrorKind::FloatError(FloatError::NegOverflow(_)) => overflow_text(true),
        ErrorKind::FloatError(FloatError::PosOverflow(_)) => overflow_text(false),
        ErrorKind::I64Error(RangeError::NegOverflow(_)) => overflow_text(true),
        ErrorKind::I64Error(RangeError::PosOverflow(_)) => overflow_text(false),
        ErrorKind::U64Error(_) => overflow_text(false),
        ErrorKind::UsizeError(_) => overflow_text(false),
        ErrorKind::ExpectedNull => "ExpectedNull"@,
        ErrorKind::ExpectedString => "ExpectedString"@,
        ErrorKind::UnsupportedType(t) => "UnsupportedType("@ + kind_label(t) + ")"@,
        ErrorKind::Napi(s) => "Napi("@ + status_name(s) + ")"@,
    }
}

fn overflow_message(negative: bool) -> (r: String)
    ensures
        r@ == overflow_text(negative),
{
    if negative {
        String::from_str("conversion resulted in negative overflow")
    } else {
        String::from_str("conversion resulted in positive overflow")
    }
}

fn kind_label_of(t: ValueType) -> (r: &'static str)
    ensures
        r@ == kind_label(t),
{
    match t {
        ValueType::Undefined => "Undefined",
        ValueType::Null => "Null",
        ValueType::Boolean => "Boolean",
        ValueType::Number => "Number",
        ValueType::String => "String",
        ValueType::Symbol => "Symbol",
        ValueType::Object => "Object",
        ValueType::Function => "Function",
        ValueType::External => "External",
        ValueType::BigInt => "BigInt",
    }
}

fn status_name_of(s: Status) -> (r: &'static str)
    ensures
        r@ == status_name(s),
{
    match s {
        Status::InvalidArg => "InvalidArg",
        Status::ObjectExpected => "ObjectExpected",
        Status::StringExpected => "StringExpected",
        Status::NameExpected => "NameExpected",
        Status::NumberExpected => "NumberExpected",
        Status::BooleanExpected => "BooleanExpected",
        Status::ArrayExpected => "ArrayExpected",
        Status::GenericFailure => "GenericFailure",
        Status::PendingException => "PendingException",
        Status::BigintExpected => "BigintExpected",
    }
}

impl Error {
    pub fn new(kind: ErrorKind) -> (r: Error)
        ensures
            r.kind == kind,
    {
        Error { kind }
    }

    /// Whether the failure is an exception pending in the runtime; until it
    /// is cleared every other runtime operation fails.
    pub fn is_exception_pending(&self) -> (r: bool)
        ensures
            r == (self.kind == ErrorKind::Napi(Status::PendingException)),
    {
        match self.kind {
            ErrorKind::Napi(Status::PendingException) => true,
            _ => false,
        }
    }

    pub fn expected_null() -> (r: Error)
        ensures
            r.kind == ErrorKind::ExpectedNull,
    {
        Error::new(ErrorKind::ExpectedNull)
    }

    pub fn expected_string() -> (r: Error)
        ensures
            r.kind == ErrorKind::ExpectedString,
    {
        Error::new(ErrorKind::ExpectedString)
    }

    pub fn missing_key() -> (r: Error)
        ensures
            r.kind == ErrorKind::MissingKey,
    {
        Error::new(ErrorKind::MissingKey)
    }

    pub fn unsupported_type(typ: ValueType) -> (r: Error)
        ensures
            r.kind == ErrorKind::UnsupportedType(typ),
    {
        Error::new(ErrorKind::UnsupportedType(typ))
    }

    /// A free-form failure with the given text.
    pub fn custom(message: String) -> (r: Error)
        ensures
            r.kind == ErrorKind::Custom(message),
    {
        Error::new(ErrorKind::Custom(message))
    }

    pub fn from_status(status: Status) -> (r: Error)
        ensures
            r.kind == ErrorKind::Napi(status),
    {
        Error::new(ErrorKind::Napi(status))
    }

    pub fn from_float_error(e: FloatError) -> (r: Error)
        ensures
            r.kind == ErrorKind::FloatError(e),
    {
        Error::new(ErrorKind::FloatError(e))
    }

    /// A range error of a double, which is reported as a float error.
    pub fn from_float_range_error(negative: bool, bits: u64) -> (r: Error)
        ensures
            r.kind == ErrorKind::FloatError(
                if negative {
                    FloatError::NegOverflow(bits)
                } else {
                    FloatError::PosOverflow(bits)
                },
            ),
    {
        if negative {
            Error::from_float_error(FloatError::NegOverflow(bits))
        } else {
            Error::from_float_error(FloatError::PosOverflow(bits))
        }
    }

    pub fn from_i64_error(e: RangeError) -> (r: Error)
        ensures
            r.kind == ErrorKind::I64Error(e),
    {
        Error::new(ErrorKind::I64Error(e))
    }

    pub fn from_u64_error(v: u64) -> (r: Error)
        ensures
            r.kind == ErrorKind::U64Error(v),
    {
        Error::new(ErrorKind::U64Error(v))
    }

    pub fn from_usize_error(v: usize) -> (r: Error)
        ensures
            r.kind == ErrorKind::UsizeError(v),
    {
        Error::new(ErrorKind::UsizeError(v))
    }

    /// The text the error is reported with.
    pub fn message(&self) -> (r: String)
        ensures
            r@ == message_of(self.kind),
    {
        match &self.kind {
            ErrorKind::Custom(m) => m.clone(),
            ErrorKind::MissingKey => String::from_str("MissingKey"),
            ErrorKind::FloatError(FloatError::NotANumber(_)) => String::from_str(
                "conversion target does not support not-a-number",
            ),
            ErrorKind::FloatError(FloatError::NegOverflow(_)) => overflow_message(true),
            ErrorKind::FloatError(FloatError::PosOverflow(_)) => overflow_message(false),
            ErrorKind::I64Error(RangeError::NegOverflow(_)) => overflow_message(true),
            ErrorKind::I64Error(RangeError::PosOverflow(_)) => overflow_message(false),
            ErrorKind::U64Error(_) => overflow_message(false),
            ErrorKind::UsizeError(_) => overflow_message(false),
            ErrorKind::ExpectedNull => String::from_str("ExpectedNull"),
            ErrorKind::ExpectedString => String::from_str("ExpectedString"),
            ErrorKind::UnsupportedType(t) => String::from_str("UnsupportedType(").concat(
                kind_label_of(*t),
            ).concat(")"),
            ErrorKind::Napi(s) => String::from_str("Napi(").concat(status_name_of(*s)).concat(
                ")",
            ),
        }
    }
}

/// A runtime outcome with its failure as an error of the transcoder.
pub open spec fn lifted<T>(r: Result<T, Status>) -> Result<T, Error> {
    match r {
        Ok(v) => Ok(v),
        Err(s) => Err(Error { kind: ErrorKind::Napi(s) }),
    }
}

pub fn lift<T>(r: Result<T, Status>) -> (out: Result<T, Error>)
    ensures
        out == lifted(r),
{
    match r {
        Ok(v) => Ok(v),
        Err(s) => Err(Error::from_status(s)),
    }
}

impl From<Status> for Error {
    fn from(status: Status) -> (r: Error) {
        Error::from_status(status)
    }
}

impl vstd::std_specs::convert::FromSpecImpl<Status> for Error {
    open spec fn obeys_from_spec() -> bool {
        true
    }

    open spec fn from_spec(status: Status) -> Error {
        Error { kind: ErrorKind::Napi(status) }
    }
}

} // verus!

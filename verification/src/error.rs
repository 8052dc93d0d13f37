//! The errors of value adaptation.

use vstd::prelude::*;
use crate::text::{joined, owned, quoted};

verus! {

/// What a declared column type asks the host value to be.
#[derive(Clone, Copy, Debug, PartialEq, Eq, Structural)]
pub enum ExpectedType {
    Bool,
    Int,
    Str,
    Bytes,
    FloatOrInt,
    Decimal,
    DateTime,
    Time,
    Date,
    Uuid,
    List,
    ListOfFloats,
}

impl ExpectedType {
    /// The name under which the expectation appears in a message.
    pub open spec fn name_model(self) -> Seq<char> {
        match self {
            ExpectedType::Bool => "bool"@,
            ExpectedType::Int => "int"@,
            ExpectedType::Str => "str"@,
            ExpectedType::Bytes => "bytes"@,
            ExpectedType::FloatOrInt => "float or int"@,
            ExpectedType::Decimal => "decimal.Decimal"@,
            ExpectedType::DateTime => "datetime.datetime"@,
            ExpectedType::Time => "datetime.time"@,
            ExpectedType::Date => "datetime.date"@,
            ExpectedType::Uuid => "uuid.UUID"@,
            ExpectedType::List => "list"@,
            ExpectedType::ListOfFloats => "list of floats"@,
        }
    }

    /// The name under which the expectation appears in a message.
    pub fn name(self) -> (r: &'static str)
        ensures
            r@ == self.name_model(),
    {
        match self {
            ExpectedType::Bool => "bool",
            ExpectedType::Int => "int",
            ExpectedType::Str => "str",
            ExpectedType::Bytes => "bytes",
            ExpectedType::FloatOrInt => "float or int",
            ExpectedType::Decimal => "decimal.Decimal",
            ExpectedType::DateTime => "datetime.datetime",
            ExpectedType::Time => "datetime.time",
            ExpectedType::Date => "datetime.date",
            ExpectedType::Uuid => "uuid.UUID",
            ExpectedType::List => "list",
            ExpectedType::ListOfFloats => "list of floats",
        }
    }
}

/// Why a field could not be taken out of a host value of the right type, or a
/// host value could not be made of an engine value.
#[derive(Clone, Copy, Debug, PartialEq, Eq, Structural)]
pub enum ExtractionFailure {
    /// The integer does not fit in 64 signed bits.
    SignedOverflow,
    /// The integer is negative or does not fit in 64 unsigned bits.
    UnsignedOverflow,
    /// The integer is too large for a double-precision number.
    FloatOverflow,
    /// The single-precision form of the number is not known.
    NoSinglePrecision,
    /// The calendar day does not exist or lies outside the engine's range.
    InvalidDate,
    /// The time of day does not exist.
    InvalidTime,
    /// The time zone has no fixed offset from UTC.
    VariableOffset,
    /// The offset from UTC is a day or more.
    OffsetOutOfBounds,
    /// The local time, moved to UTC, lies outside the engine's range.
    InstantOutOfRange,
    /// The text is no decimal number that the engine can hold.
    InvalidDecimal,
    /// The host has no date in that year.
    YearOutOfHostRange,
}

impl ExtractionFailure {
    /// The text of the failure.
    pub open spec fn text_model(self) -> Seq<char> {
        match self {
            ExtractionFailure::SignedOverflow => "int too big to convert to a signed 64-bit integer"@,
            ExtractionFailure::UnsignedOverflow => "int out of range for an unsigned 64-bit integer"@,
            ExtractionFailure::FloatOverflow => "int too large to convert to float"@,
            ExtractionFailure::NoSinglePrecision => "number has no single-precision form"@,
            ExtractionFailure::InvalidDate => "invalid or out-of-range date"@,
            ExtractionFailure::InvalidTime => "invalid or out-of-range time"@,
            ExtractionFailure::VariableOffset => "tzinfo is not a fixed offset timezone"@,
            ExtractionFailure::OffsetOutOfBounds => "fixed offset out of bounds"@,
            ExtractionFailure::InstantOutOfRange => "the datetime contains an incompatible timezone"@,
            ExtractionFailure::InvalidDecimal => "invalid decimal"@,
            ExtractionFailure::YearOutOfHostRange => "year is out of range"@,
        }
    }

    /// The text of the failure.
    pub fn text(self) -> (r: &'static str)
        ensures
            r@ == self.text_model(),
    {
        match self {
            ExtractionFailure::SignedOverflow => "int too big to convert to a signed 64-bit integer",
            ExtractionFailure::UnsignedOverflow => "int out of range for an unsigned 64-bit integer",
            ExtractionFailure::FloatOverflow => "int too large to convert to float",
            ExtractionFailure::NoSinglePrecision => "number has no single-precision form",
            ExtractionFailure::InvalidDate => "invalid or out-of-range date",
            ExtractionFailure::InvalidTime => "invalid or out-of-range time",
            ExtractionFailure::VariableOffset => "tzinfo is not a fixed offset timezone",
            ExtractionFailure::OffsetOutOfBounds => "fixed offset out of bounds",
            ExtractionFailure::InstantOutOfRange => "the datetime contains an incompatible timezone",
            ExtractionFailure::InvalidDecimal => "invalid decimal",
            ExtractionFailure::YearOutOfHostRange => "year is out of range",
        }
    }
}

/// An error of value adaptation.
#[derive(Debug, PartialEq, Eq)]
pub enum AdaptError {
    /// The host value's runtime type is not the one the column type requires.
    TypeMismatch { expected: ExpectedType, actual: String },
    /// A vector holds an element that is neither a float nor an integer.
    VectorElement { actual: String },
    /// The value has the right type, but a field could not be taken out.
    Extraction(ExtractionFailure),
    /// The host's JSON encoder rejected the value; the text is the host's.
    JsonCodec(String),
    /// The host's JSON encoder was never asked about the value.
    JsonNotEncoded,
    /// The text that the host's JSON encoder wrote is no JSON document.
    JsonParse,
    /// No column type was declared and the runtime type is none of those
    /// that the library recognises.
    UnrecognizedType(String),
    /// The declared type is no column type.
    UnknownColumnType,
}

/// The mathematical form of an [`AdaptError`].
pub enum ErrorModel {
    TypeMismatch { expected: ExpectedType, actual: Seq<char> },
    VectorElement { actual: Seq<char> },
    Extraction(ExtractionFailure),
    JsonCodec(Seq<char>),
    JsonNotEncoded,
    JsonParse,
    UnrecognizedType(Seq<char>),
    UnknownColumnType,
}

impl ErrorModel {
    /// The message that the error shows to the host.
    pub open spec fn message(self) -> Seq<char> {
        match self {
            ErrorModel::TypeMismatch { expected, actual } => "expected "@ + expected.name_model()
                + ", got "@ + actual,
            ErrorModel::VectorElement { actual } => "expected list of floats, found an "@
                + crate::text::debug_text(actual) + " element"@,
            ErrorModel::Extraction(failure) => failure.text_model(),
            ErrorModel::JsonCodec(text) => text,
            ErrorModel::JsonNotEncoded => "the JSON form of the value is not known"@,
            ErrorModel::JsonParse => "the JSON form of the value cannot be parsed"@,
            ErrorModel::UnrecognizedType(name) => "could not infer SQL type for "@
                + crate::text::debug_text(name),
            ErrorModel::UnknownColumnType =>
                "could not detect column type. are you sure you're using BaseColumnType instances?"@,
        }
    }
}

impl View for AdaptError {
    type V = ErrorModel;

    open spec fn view(&self) -> ErrorModel {
        match self {
            AdaptError::TypeMismatch { expected, actual } => ErrorModel::TypeMismatch {
                expected: *expected,
                actual: actual@,
            },
            AdaptError::VectorElement { actual } => ErrorModel::VectorElement { actual: actual@ },
            AdaptError::Extraction(failure) => ErrorModel::Extraction(*failure),
            AdaptError::JsonCodec(text) => ErrorModel::JsonCodec(text@),
            AdaptError::JsonNotEncoded => ErrorModel::JsonNotEncoded,
            AdaptError::JsonParse => ErrorModel::JsonParse,
            AdaptError::UnrecognizedType(name) => ErrorModel::UnrecognizedType(name@),
            AdaptError::UnknownColumnType => ErrorModel::UnknownColumnType,
        }
    }
}

impl Clone for AdaptError {
    fn clone(&self) -> (r: Self)
        ensures
            r@ == self@,
    {
        match self {
            AdaptError::TypeMismatch { expected, actual } => AdaptError::TypeMismatch {
                expected: *expected,
                actual: actual.clone(),
            },
            AdaptError::VectorElement { actual } => AdaptError::VectorElement {
                actual: actual.clone(),
            },
            AdaptError::Extraction(failure) => AdaptError::Extraction(*failure),
            AdaptError::JsonCodec(text) => AdaptError::JsonCodec(text.clone()),
            AdaptError::JsonNotEncoded => AdaptError::JsonNotEncoded,
            AdaptError::JsonParse => AdaptError::JsonParse,
            AdaptError::UnrecognizedType(name) => AdaptError::UnrecognizedType(name.clone()),
            AdaptError::UnknownColumnType => AdaptError::UnknownColumnType,
        }
    }
}

impl AdaptError {
    /// The message that the error shows to the host.
    pub fn message(&self) -> (r: String)
        ensures
            r@ == self@.message(),
    {
        match self {
            AdaptError::TypeMismatch { expected, actual } => {
                let s = owned("expected ");
                let s = joined(s, expected.name());
                let s = joined(s, ", got ");
                joined(s, actual.as_str())
            },
            AdaptError::VectorElement { actual } => {
                let s = owned("expected list of floats, found an ");
                let q = quoted(actual.as_str());
                let s = joined(s, q.as_str());
                joined(s, " element")
            },
            AdaptError::Extraction(failure) => owned(failure.text()),
            AdaptError::JsonCodec(text) => text.clone(),
            AdaptError::JsonNotEncoded => owned("the JSON form of the value is not known"),
            AdaptError::JsonParse => owned("the JSON form of the value cannot be parsed"),
            AdaptError::UnrecognizedType(name) => {
                let s = owned("could not infer SQL type for ");
                let q = quoted(name.as_str());
                joined(s, q.as_str())
            },
            AdaptError::UnknownColumnType => owned(
                "could not detect column type. are you sure you're using BaseColumnType instances?",
            ),
        }
    }
}

} // verus!

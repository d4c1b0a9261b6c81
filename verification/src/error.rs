//! What a decoder reports when a document is not what it expects.

use vstd::prelude::*;

verus! {

/// Why a document was rejected.
#[derive(Clone, Copy, Debug, PartialEq, Eq)]
pub enum ErrorKind {
    /// A string that writes no account or asset identifier.
    MalformedIdentifier,
    /// A string that writes no 64-bit amount.
    MalformedAmount,
    /// A string that writes no decimal number.
    MalformedDecimal,
    /// A value that has none of the shapes of a union.
    UnrecognizedShape,
    /// A string that names no variant of an enum.
    UnrecognizedVariant,
    /// A value of another JSON type than the place takes, or a number
    /// outside the range of the place.
    UnexpectedType,
    /// A required member is absent.
    MissingField,
}

/// A rejection: the reason, and the wire name of the member under which it
/// arose (empty where the rejected value stands under no member).
#[derive(Clone, Copy, Debug, PartialEq, Eq)]
pub struct DecodeError {
    pub kind: ErrorKind,
    pub field: &'static str,
}

impl DecodeError {
    /// The rejection of a value that stands under no member.
    pub open spec fn bare(kind: ErrorKind) -> DecodeError {
        DecodeError { kind, field: "" }
    }

    /// The rejection of the member `field`.
    pub open spec fn at(kind: ErrorKind, field: &'static str) -> DecodeError {
        DecodeError { kind, field }
    }

    /// This rejection as seen from the member `field` that holds the
    /// rejected value: a rejection that names no member yet names `field`,
    /// one that names a member keeps it.
    pub open spec fn within(self, field: &'static str) -> DecodeError {
        if self.field@.len() == 0 {
            DecodeError { kind: self.kind, field }
        } else {
            self
        }
    }

    /// Makes the rejection of a value that stands under no member.
    pub fn new(kind: ErrorKind) -> (e: DecodeError)
        ensures
            e == DecodeError::bare(kind),
    {
        DecodeError { kind, field: "" }
    }

    /// Names the member `field` where this rejection names none.
    pub fn in_field(self, field: &'static str) -> (e: DecodeError)
        ensures
            e == self.within(field),
    {
        if self.field.is_empty() {
            DecodeError { kind: self.kind, field }
        } else {
            self
        }
    }

    /// The words for the reason.
    pub open spec fn reason(self) -> Seq<char> {
        match self.kind {
            ErrorKind::MalformedIdentifier => "malformed account or asset identifier"@,
            ErrorKind::MalformedAmount => "malformed 64-bit amount"@,
            ErrorKind::MalformedDecimal => "malformed decimal number"@,
            ErrorKind::UnrecognizedShape => "unrecognized representation of a union value"@,
            ErrorKind::UnrecognizedVariant => "unrecognized enum value"@,
            ErrorKind::UnexpectedType => "value of an unexpected type or range"@,
            ErrorKind::MissingField => "missing field"@,
        }
    }

    /// The sentence for a reader: the reason, and after it the member where
    /// the rejection names one.
    pub open spec fn sentence(self) -> Seq<char> {
        if self.field@.len() == 0 {
            self.reason()
        } else {
            self.reason() + " in field "@ + self.field@
        }
    }

    /// A sentence for a reader.
    pub fn message(&self) -> (text: String)
        ensures
            text@ == self.sentence(),
    {
        let reason = match self.kind {
            ErrorKind::MalformedIdentifier => "malformed account or asset identifier",
            ErrorKind::MalformedAmount => "malformed 64-bit amount",
            ErrorKind::MalformedDecimal => "malformed decimal number",
            ErrorKind::UnrecognizedShape => "unrecognized representation of a union value",
            ErrorKind::UnrecognizedVariant => "unrecognized enum value",
            ErrorKind::UnexpectedType => "value of an unexpected type or range",
            ErrorKind::MissingField => "missing field",
        };
        let mut text = reason.to_owned();
        if !self.field.is_empty() {
            text.append(" in field ");
            text.append(self.field);
        }
        text
    }
}

/// The result of a reader that takes `value`.
pub open spec fn accepted<T>(value: T) -> Result<T, DecodeError> {
    Ok(value)
}

/// The result of a reader that rejects with `e`.
pub open spec fn rejected<T>(e: DecodeError) -> Result<T, DecodeError> {
    Err(e)
}

/// The result of reading one value, with a rejection that names `field`.
pub open spec fn named<T>(read: Result<T, ErrorKind>, field: &'static str) -> Result<
    T,
    DecodeError,
> {
    match read {
        Ok(value) => Ok(value),
        Err(kind) => Err(DecodeError::at(kind, field)),
    }
}

} // verus!

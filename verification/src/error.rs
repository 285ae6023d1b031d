//! The errors of the codec and of parameter extraction.

use vstd::prelude::*;

verus! {

/// The part of an envelope that a decoding error speaks of.
#[derive(Clone, Copy, Debug, PartialEq, Eq, Structural)]
pub enum Field {
    /// The envelope as a whole: a payload, an info or a failure must be an object.
    Envelope,
    /// `metadata` of a payload.
    Metadata,
    /// `data` of a payload.
    Data,
    /// `params` of an info.
    Params,
    /// `message` of a failure.
    Message,
    /// `type` of a failure.
    Kind,
    /// `non_retryable` of a failure.
    NonRetryable,
    /// `details` of a failure.
    Details,
}

/// What is wrong with one value of an envelope that should hold binary data.
#[derive(Clone, Copy, Debug, PartialEq, Eq, Structural)]
pub enum Flaw {
    /// The value is not of the JSON type that its place asks for.
    Shape,
    /// The value is a string, but not the base64 text of any bytes.
    Base64,
}

/// A malformed envelope.
#[derive(Clone, Copy, Debug, PartialEq, Eq, Structural)]
pub enum DecodeError {
    /// The bytes are not one JSON text.
    Syntax,
    /// A value of the envelope has the wrong JSON type, or a required one is missing.
    Shape(Field),
    /// A string that should be base64 text is not.
    Base64(Field),
}

/// An outgoing value that cannot be written.
#[derive(Clone, Copy, Debug, PartialEq, Eq, Structural)]
pub enum EncodeError {
    /// A byte string is too long for its base64 text to be held in memory.
    TooLong,
    /// The JSON writer gave up.
    Render,
}

/// Input that is well formed but not what the invocation expects.
#[derive(Clone, Copy, Debug, PartialEq, Eq, Structural)]
pub enum ValidationError {
    /// The info does not hold exactly one parameter.
    ParamCount,
    /// The parameter's `encoding` is missing or is not the expected tag.
    Encoding,
}

/// Why a parameter could not be extracted.
#[derive(Clone, Copy, Debug, PartialEq, Eq, Structural)]
pub enum ParamError {
    /// The info or its parameter is not what was expected.
    Validation(ValidationError),
    /// The parameter's data could not be read in the encoding that it names.
    Decode(DecodeError),
}

impl DecodeError {
    /// The error for a flawed value in the given field.
    pub open spec fn at(flaw: Flaw, field: Field) -> DecodeError {
        match flaw {
            Flaw::Shape => DecodeError::Shape(field),
            Flaw::Base64 => DecodeError::Base64(field),
        }
    }

    /// Names the field in which a flawed value was found.
    pub fn locate(flaw: Flaw, field: Field) -> (e: DecodeError)
        ensures
            e == Self::at(flaw, field),
    {
        match flaw {
            Flaw::Shape => DecodeError::Shape(field),
            Flaw::Base64 => DecodeError::Base64(field),
        }
    }
}

} // verus!

//! How errors are reported: each becomes a failure that the host is told of.
//!
//! An error in writing an envelope is not reported this way: the channel it
//! would go through is the one that failed.

use crate::error::{DecodeError, Field, ParamError, ValidationError};
use crate::failure::{plain_failure, Failure, FailureView};
use vstd::prelude::*;
use vstd::string::StringExecFns;

verus! {

/// The name of a field, as it stands in an envelope.
pub open spec fn field_name(field: Field) -> Seq<char> {
    match field {
        Field::Envelope => "envelope"@,
        Field::Metadata => "metadata"@,
        Field::Data => "data"@,
        Field::Params => "params"@,
        Field::Message => "message"@,
        Field::Kind => "type"@,
        Field::NonRetryable => "non_retryable"@,
        Field::Details => "details"@,
    }
}

/// The stage of decoding that an error comes from: reading the JSON text,
/// reading the envelope from the JSON value, or reading bytes from base64
/// text.
pub open spec fn decode_stage(e: DecodeError) -> Seq<char> {
    match e {
        DecodeError::Syntax => "decode/json"@,
        DecodeError::Shape(_) => "decode/envelope"@,
        DecodeError::Base64(_) => "decode/base64"@,
    }
}

/// What a decoding error says to a reader.
pub open spec fn decode_message(e: DecodeError) -> Seq<char> {
    match e {
        DecodeError::Syntax => "input is not JSON"@,
        DecodeError::Shape(field) => field_name(field) + " has the wrong shape"@,
        DecodeError::Base64(field) => field_name(field) + " is not base64"@,
    }
}

/// What a validation error says to a reader.
pub open spec fn validation_message(e: ValidationError) -> Seq<char> {
    match e {
        ValidationError::ParamCount => "expected single param"@,
        ValidationError::Encoding => "bad param encoding"@,
    }
}

/// The failure that reports a decoding error: its type names the stage.
pub open spec fn decode_failure(e: DecodeError) -> FailureView {
    FailureView { kind: Some(decode_stage(e)), ..plain_failure(decode_message(e)) }
}

/// The failure that reports a validation error, under the type
/// `ValidationError`.
pub open spec fn validation_failure(e: ValidationError) -> FailureView {
    FailureView { kind: Some("ValidationError"@), ..plain_failure(validation_message(e)) }
}

/// The failure that reports why a parameter could not be extracted.
pub open spec fn param_failure(e: ParamError) -> FailureView {
    match e {
        ParamError::Validation(e) => validation_failure(e),
        ParamError::Decode(e) => decode_failure(e),
    }
}

impl Field {
    /// The name of the field, as it stands in an envelope.
    pub fn name(self) -> (name: String)
        ensures
            name@ == field_name(self),
    {
        match self {
            Field::Envelope => "envelope".to_owned(),
            Field::Metadata => "metadata".to_owned(),
            Field::Data => "data".to_owned(),
            Field::Params => "params".to_owned(),
            Field::Message => "message".to_owned(),
            Field::Kind => "type".to_owned(),
            Field::NonRetryable => "non_retryable".to_owned(),
            Field::Details => "details".to_owned(),
        }
    }
}

impl DecodeError {
    /// The stage of decoding that the error comes from.
    pub fn stage(self) -> (stage: String)
        ensures
            stage@ == decode_stage(self),
    {
        match self {
            DecodeError::Syntax => "decode/json".to_owned(),
            DecodeError::Shape(_) => "decode/envelope".to_owned(),
            DecodeError::Base64(_) => "decode/base64".to_owned(),
        }
    }

    /// What the error says to a reader.
    pub fn message(self) -> (message: String)
        ensures
            message@ == decode_message(self),
    {
        match self {
            DecodeError::Syntax => "input is not JSON".to_owned(),
            DecodeError::Shape(field) => field.name().concat(" has the wrong shape"),
            DecodeError::Base64(field) => field.name().concat(" is not base64"),
        }
    }
}

impl ValidationError {
    /// What the error says to a reader.
    pub fn message(self) -> (message: String)
        ensures
            message@ == validation_message(self),
    {
        match self {
            ValidationError::ParamCount => "expected single param".to_owned(),
            ValidationError::Encoding => "bad param encoding".to_owned(),
        }
    }
}

impl Failure {
    /// The failure that reports a decoding error.
    pub fn from_decode_error(e: DecodeError) -> (f: Failure)
        ensures
            f@ == decode_failure(e),
    {
        let mut f = Failure::new(e.message());
        f.kind = Some(e.stage());
        f
    }

    /// The failure that reports a validation error.
    pub fn from_validation_error(e: ValidationError) -> (f: Failure)
        ensures
            f@ == validation_failure(e),
    {
        let mut f = Failure::new(e.message());
        f.kind = Some("ValidationError".to_owned());
        f
    }

    /// The failure that reports why a parameter could not be extracted.
    pub fn from_param_error(e: ParamError) -> (f: Failure)
        ensures
            f@ == param_failure(e),
    {
        match e {
            ParamError::Validation(e) => Failure::from_validation_error(e),
            ParamError::Decode(e) => Failure::from_decode_error(e),
        }
    }
}

} // verus!

//! The info: what an invocation is started with.

use crate::error::{DecodeError, Field, ParamError, ValidationError};
use crate::json::{as_array, as_object, as_str, get_member, json_of, json_parse, member, parse, Json};
use crate::payload::{
    decode_all, has_encoding, json_payloads, payload_views, Payload, PayloadView,
};
use vstd::prelude::*;

verus! {

/// The input of one invocation: its arguments, in their order.
#[derive(Debug)]
pub struct Info {
    pub params: Vec<Payload>,
}

/// What an info holds.
pub struct InfoView {
    pub params: Seq<PayloadView>,
}

impl View for Info {
    type V = InfoView;

    open spec fn view(&self) -> InfoView {
        InfoView { params: payload_views(self.params@) }
    }
}

/// The info that an envelope holds, or the first thing wrong with it. An
/// envelope without `params` holds no arguments.
pub open spec fn json_info(j: Json) -> Result<InfoView, DecodeError> {
    match j {
        Json::Object(members) => match member(members, "params"@) {
            None => Ok(InfoView { params: Seq::empty() }),
            Some(Json::Array(items)) => match json_payloads(items) {
                Ok(params) => Ok(InfoView { params }),
                Err(e) => Err(e),
            },
            Some(_) => Err(DecodeError::Shape(Field::Params)),
        },
        _ => Err(DecodeError::Shape(Field::Envelope)),
    }
}

/// The info that a JSON text holds, or the first thing wrong with it.
pub open spec fn text_info(text: Seq<u8>) -> Result<InfoView, DecodeError> {
    match json_parse(text) {
        None => Err(DecodeError::Syntax),
        Some(j) => json_info(j),
    }
}

/// What was decoded, seen as what it holds.
pub open spec fn decoded_info(r: Result<Info, DecodeError>) -> Result<InfoView, DecodeError> {
    match r {
        Ok(info) => Ok(info@),
        Err(e) => Err(e),
    }
}

/// The one parameter of an invocation that must have exactly one, in the
/// given encoding.
pub open spec fn single_param(params: Seq<PayloadView>, tag: Seq<char>) -> Result<
    PayloadView,
    ValidationError,
> {
    if params.len() != 1 {
        Err(ValidationError::ParamCount)
    } else if !has_encoding(params[0], tag) {
        Err(ValidationError::Encoding)
    } else {
        Ok(params[0])
    }
}

/// The JSON value that is the one parameter of an invocation.
pub open spec fn json_param(params: Seq<PayloadView>) -> Result<Json, ParamError> {
    match single_param(params, "json/plain"@) {
        Err(e) => Err(ParamError::Validation(e)),
        Ok(p) => match json_parse(p.data) {
            None => Err(ParamError::Decode(DecodeError::Syntax)),
            Some(j) => Ok(j),
        },
    }
}

/// The string that is the one parameter of an invocation.
pub open spec fn string_param(params: Seq<PayloadView>) -> Result<Seq<char>, ParamError> {
    match json_param(params) {
        Err(e) => Err(e),
        Ok(Json::Str(s)) => Ok(s),
        Ok(_) => Err(ParamError::Decode(DecodeError::Shape(Field::Data))),
    }
}

/// An envelope without `params` holds an info without arguments.
pub proof fn lemma_missing_params(members: Map<Seq<char>, Json>)
    requires
        !members.contains_key("params"@),
    ensures
        json_info(Json::Object(members)) == Ok::<InfoView, DecodeError>(
            InfoView { params: Seq::empty() },
        ),
{
}

/// Extraction asks for exactly one parameter: with none, or with two or
/// more, it fails with `ParamCount`; with one that names `json/plain` and
/// holds the JSON text of a string, it gives that string.
pub proof fn lemma_extraction(params: Seq<PayloadView>, tag: Seq<char>, s: Seq<char>)
    ensures
        params.len() != 1 ==> single_param(params, tag) == Err::<PayloadView, ValidationError>(
            ValidationError::ParamCount,
        ),
        params.len() != 1 ==> string_param(params) == Err::<Seq<char>, ParamError>(
            ParamError::Validation(ValidationError::ParamCount),
        ),
        params.len() == 1 && has_encoding(params[0], "json/plain"@) && json_parse(params[0].data)
            == Some(Json::Str(s)) ==> string_param(params) == Ok::<Seq<char>, ParamError>(s),
{
}

/// Whether two byte strings are the same.
fn same_bytes(a: &[u8], b: &[u8]) -> (same: bool)
    ensures
        same == (a@ == b@),
{
    if a.len() != b.len() {
        return false;
    }
    let mut i: usize = 0;
    while i < a.len()
        invariant
            i <= a.len(),
            a.len() == b.len(),
            forall|j: int| 0 <= j < i ==> a@[j] == b@[j],
        decreases a.len() - i,
    {
        if a[i] != b[i] {
            return false;
        }
        i += 1;
    }
    assert(a@ =~= b@);
    true
}

impl Info {
    /// Reads an info from its envelope.
    pub fn decode(v: &serde_json::Value) -> (r: Result<Info, DecodeError>)
        ensures
            decoded_info(r) == json_info(json_of(*v)),
    {
        let members = match as_object(v) {
            Some(members) => members,
            None => {
                return Err(DecodeError::Shape(Field::Envelope));
            },
        };
        match get_member(members, "params") {
            None => {
                let params: Vec<Payload> = Vec::new();
                assert(payload_views(params@) =~= Seq::empty());
                Ok(Info { params })
            },
            Some(j) => match as_array(j) {
                None => Err(DecodeError::Shape(Field::Params)),
                Some(items) => match decode_all(items) {
                    Ok(params) => Ok(Info { params }),
                    Err(e) => Err(e),
                },
            },
        }
    }

    /// Reads an info from the JSON text of its envelope, as the host hands
    /// it over.
    pub fn load(text: &[u8]) -> (r: Result<Info, DecodeError>)
        ensures
            decoded_info(r) == text_info(text@),
    {
        match parse(text) {
            Ok(envelope) => Info::decode(&envelope),
            Err(_) => Err(DecodeError::Syntax),
        }
    }

    /// The one parameter of the invocation, which must name the given
    /// encoding.
    pub fn single_param(&self, encoding: &str) -> (r: Result<&Payload, ValidationError>)
        ensures
            match r {
                Ok(p) => single_param(self@.params, encoding@) == Ok::<
                    PayloadView,
                    ValidationError,
                >(p@) && *p == self.params@[0],
                Err(e) => single_param(self@.params, encoding@) == Err::<
                    PayloadView,
                    ValidationError,
                >(e),
            },
    {
        if self.params.len() != 1 {
            return Err(ValidationError::ParamCount);
        }
        let p = &self.params[0];
        match p.metadata.get("encoding") {
            None => Err(ValidationError::Encoding),
            Some(tag) => {
                if same_bytes(tag.as_slice(), encoding.as_bytes()) {
                    Ok(p)
                } else {
                    Err(ValidationError::Encoding)
                }
            },
        }
    }

    /// The one parameter of the invocation, read as JSON.
    pub fn json_param(&self) -> (r: Result<serde_json::Value, ParamError>)
        ensures
            match r {
                Ok(v) => json_param(self@.params) == Ok::<Json, ParamError>(json_of(v)),
                Err(e) => json_param(self@.params) == Err::<Json, ParamError>(e),
            },
    {
        let p = match self.single_param("json/plain") {
            Ok(p) => p,
            Err(e) => {
                return Err(ParamError::Validation(e));
            },
        };
        match parse(p.data.as_slice()) {
            Ok(v) => Ok(v),
            Err(_) => Err(ParamError::Decode(DecodeError::Syntax)),
        }
    }

    /// The one parameter of the invocation, read as a JSON string.
    pub fn string_param(&self) -> (r: Result<String, ParamError>)
        ensures
            match r {
                Ok(s) => string_param(self@.params) == Ok::<Seq<char>, ParamError>(s@),
                Err(e) => string_param(self@.params) == Err::<Seq<char>, ParamError>(e),
            },
    {
        let v = self.json_param()?;
        match as_str(&v) {
            Some(s) => Ok(s.to_owned()),
            None => Err(ParamError::Decode(DecodeError::Shape(Field::Data))),
        }
    }
}

} // verus!

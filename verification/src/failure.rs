//! The failure: the structured error that an invocation ends with, and its
//! envelope.

use crate::error::{DecodeError, EncodeError, Field};
use crate::json::{
    as_array, as_bool, as_object, as_str, bool_value, get_member, json_of, json_parse, json_text,
    member, new_members, no_members, object_value, parse, render, set_member, string_value,
    with_member, Json,
};
use crate::payload::{
    decode_all, encode_all, json_payloads, lemma_payloads_round_trip, payload_views,
    payloads_fit, payloads_json, payloads_restorable, written, Payload, PayloadView,
};
use vstd::prelude::*;

verus! {

/// A structured error, with the error that caused it, if that is known.
#[derive(Debug)]
pub struct Failure {
    /// What went wrong, for a reader.
    pub message: String,
    /// The class of the error; `type` on the wire.
    pub kind: Option<String>,
    /// Whether trying again is pointless.
    pub non_retryable: bool,
    /// Structured context.
    pub details: Vec<Payload>,
    /// The failure that led to this one.
    pub cause: Option<Box<Failure>>,
}

/// What a failure holds.
pub struct FailureView {
    pub message: Seq<char>,
    pub kind: Option<Seq<char>>,
    pub non_retryable: bool,
    pub details: Seq<PayloadView>,
    pub cause: Option<Box<FailureView>>,
}

impl Failure {
    /// What the failure holds, with what its causes hold.
    pub open spec fn content(&self) -> FailureView
        decreases self,
    {
        FailureView {
            message: self.message@,
            kind: match self.kind {
                Some(kind) => Some(kind@),
                None => None,
            },
            non_retryable: self.non_retryable,
            details: payload_views(self.details@),
            cause: match self.cause {
                Some(cause) => Some(Box::new((*cause).content())),
                None => None,
            },
        }
    }
}

impl View for Failure {
    type V = FailureView;

    open spec fn view(&self) -> FailureView {
        self.content()
    }
}

/// The failure that holds a message and nothing else.
pub open spec fn plain_failure(message: Seq<char>) -> FailureView {
    FailureView {
        message,
        kind: None,
        non_retryable: false,
        details: Seq::empty(),
        cause: None,
    }
}

/// The messages of the chain that starts with this failure: its own, then
/// its cause's, and so on.
pub open spec fn chain_messages(f: FailureView) -> Seq<Seq<char>>
    decreases f,
{
    match f.cause {
        Some(cause) => seq![f.message] + chain_messages(*cause),
        None => seq![f.message],
    }
}

/// The `type` member of a failure's envelope: none where there is no type.
pub open spec fn kind_member(kind: Option<Seq<char>>) -> Option<Json> {
    match kind {
        Some(kind) => Some(Json::Str(kind)),
        None => None,
    }
}

/// The `non_retryable` member of a failure's envelope: none for `false`.
pub open spec fn flag_member(non_retryable: bool) -> Option<Json> {
    if non_retryable {
        Some(Json::Bool(true))
    } else {
        None
    }
}

/// The `details` member of a failure's envelope: none for no details.
pub open spec fn details_member(details: Seq<PayloadView>) -> Option<Json> {
    if details.len() == 0 {
        None
    } else {
        Some(Json::Array(payloads_json(details)))
    }
}

/// The members of a failure's envelope but for `cause`.
pub open spec fn own_members(f: FailureView) -> Map<Seq<char>, Json> {
    with_member(
        with_member(
            with_member(
                no_members().insert("message"@, Json::Str(f.message)),
                "type"@,
                kind_member(f.kind),
            ),
            "non_retryable"@,
            flag_member(f.non_retryable),
        ),
        "details"@,
        details_member(f.details),
    )
}

/// The envelope of a failure: an object with `message`, and with `type`,
/// `non_retryable`, `details` and `cause` only where the failure has a type,
/// is not retryable, has details and has a cause.
pub open spec fn failure_json(f: FailureView) -> Json
    decreases f,
{
    Json::Object(
        with_member(
            own_members(f),
            "cause"@,
            match f.cause {
                Some(cause) => Some(failure_json(*cause)),
                None => None,
            },
        ),
    )
}

/// The message that an envelope's members give: it must be there.
pub open spec fn members_message(members: Map<Seq<char>, Json>) -> Result<Seq<char>, DecodeError> {
    match member(members, "message"@) {
        Some(Json::Str(message)) => Ok(message),
        _ => Err(DecodeError::Shape(Field::Message)),
    }
}

/// The type that an envelope's members give: none where `type` is missing.
pub open spec fn members_kind(members: Map<Seq<char>, Json>) -> Result<
    Option<Seq<char>>,
    DecodeError,
> {
    match member(members, "type"@) {
        None => Ok(None),
        Some(Json::Str(kind)) => Ok(Some(kind)),
        Some(_) => Err(DecodeError::Shape(Field::Kind)),
    }
}

/// The flag that an envelope's members give: `false` where `non_retryable`
/// is missing.
pub open spec fn members_flag(members: Map<Seq<char>, Json>) -> Result<bool, DecodeError> {
    match member(members, "non_retryable"@) {
        None => Ok(false),
        Some(Json::Bool(b)) => Ok(b),
        Some(_) => Err(DecodeError::Shape(Field::NonRetryable)),
    }
}

/// The details that an envelope's members give: none where `details` is
/// missing.
pub open spec fn members_details(members: Map<Seq<char>, Json>) -> Result<
    Seq<PayloadView>,
    DecodeError,
> {
    match member(members, "details"@) {
        None => Ok(Seq::empty()),
        Some(Json::Array(items)) => json_payloads(items),
        Some(_) => Err(DecodeError::Shape(Field::Details)),
    }
}

/// The failure without a cause that an envelope's members give, or the
/// first thing wrong with them: the message, then the type, then the flag,
/// then the details.
pub open spec fn members_failure(members: Map<Seq<char>, Json>) -> Result<
    FailureView,
    DecodeError,
> {
    match members_message(members) {
        Err(e) => Err(e),
        Ok(message) => match members_kind(members) {
            Err(e) => Err(e),
            Ok(kind) => match members_flag(members) {
                Err(e) => Err(e),
                Ok(non_retryable) => match members_details(members) {
                    Err(e) => Err(e),
                    Ok(details) => Ok(
                        FailureView { message, kind, non_retryable, details, cause: None },
                    ),
                },
            },
        },
    }
}

/// The failure that an envelope holds, or the first thing wrong with it:
/// the envelope itself, then its own members, then its cause. Members under
/// other keys are passed over.
pub open spec fn json_failure(j: Json) -> Result<FailureView, DecodeError>
    decreases j,
{
    match j {
        Json::Object(members) => match members_failure(members) {
            Err(e) => Err(e),
            Ok(f) => if members.contains_key("cause"@) {
                match json_failure(members["cause"@]) {
                    Err(e) => Err(e),
                    Ok(cause) => Ok(FailureView { cause: Some(Box::new(cause)), ..f }),
                }
            } else {
                Ok(f)
            },
        },
        _ => Err(DecodeError::Shape(Field::Envelope)),
    }
}

/// The failure that a JSON text holds, or the first thing wrong with it.
pub open spec fn text_failure(text: Seq<u8>) -> Result<FailureView, DecodeError> {
    match json_parse(text) {
        None => Err(DecodeError::Syntax),
        Some(j) => json_failure(j),
    }
}

/// Whether the text of every byte string of the failure and of its causes is
/// short enough to be made.
pub open spec fn failure_fits(f: FailureView) -> bool
    decreases f,
{
    payloads_fit(f.details) && match f.cause {
        Some(cause) => failure_fits(*cause),
        None => true,
    }
}

/// Whether reading the text of any byte string in the failure's envelope
/// gives the byte string back.
pub open spec fn failure_restorable(f: FailureView) -> bool
    decreases f,
{
    payloads_restorable(f.details) && match f.cause {
        Some(cause) => failure_restorable(*cause),
        None => true,
    }
}

/// The JSON text of a failure's envelope: `TooLong` where the base64 text of
/// a byte string would be too long to hold, `Render` where the JSON writer
/// gives up.
pub open spec fn failure_text(f: FailureView) -> Result<Seq<u8>, EncodeError> {
    if !failure_fits(f) {
        Err(EncodeError::TooLong)
    } else {
        match json_text(failure_json(f)) {
            Some(text) => Ok(text),
            None => Err(EncodeError::Render),
        }
    }
}

/// What was decoded, seen as what it holds.
pub open spec fn decoded_failure(r: Result<Failure, DecodeError>) -> Result<
    FailureView,
    DecodeError,
> {
    match r {
        Ok(f) => Ok(f@),
        Err(e) => Err(e),
    }
}

/// The five keys of a failure's envelope differ from each other.
proof fn lemma_failure_keys()
    ensures
        "message"@ != "type"@,
        "message"@ != "non_retryable"@,
        "message"@ != "details"@,
        "message"@ != "cause"@,
        "type"@ != "non_retryable"@,
        "type"@ != "details"@,
        "type"@ != "cause"@,
        "non_retryable"@ != "details"@,
        "non_retryable"@ != "cause"@,
        "details"@ != "cause"@,
{
    reveal_strlit("message");
    reveal_strlit("type");
    reveal_strlit("non_retryable");
    reveal_strlit("details");
    reveal_strlit("cause");
    assert("message"@.len() == 7 && "type"@.len() == 4 && "non_retryable"@.len() == 13
        && "details"@.len() == 7 && "cause"@.len() == 5);
    assert("message"@[0] != "details"@[0]);
}

/// A failure that holds a message and nothing else has an envelope with
/// exactly the member `message`.
pub proof fn lemma_defaults_omitted(message: Seq<char>)
    ensures
        failure_json(plain_failure(message)) == Json::Object(
            no_members().insert("message"@, Json::Str(message)),
        ),
{
}

/// A member is in the envelope of a failure exactly where the failure has
/// something to put there.
pub proof fn lemma_failure_members(f: FailureView)
    ensures
        failure_json(f) is Object,
        member(failure_json(f)->Object_0, "message"@) == Some(Json::Str(f.message)),
        member(failure_json(f)->Object_0, "type"@) == kind_member(f.kind),
        member(failure_json(f)->Object_0, "non_retryable"@) == flag_member(f.non_retryable),
        member(failure_json(f)->Object_0, "details"@) == details_member(f.details),
        member(failure_json(f)->Object_0, "cause"@) == match f.cause {
            Some(cause) => Some(failure_json(*cause)),
            None => None,
        },
        forall|k: Seq<char>| #[trigger]
            failure_json(f)->Object_0.contains_key(k) ==> k == "message"@ || k == "type"@ || k
                == "non_retryable"@ || k == "details"@ || k == "cause"@,
{
    lemma_failure_keys();
}

/// Decoding the envelope of a failure gives the failure back, with every
/// cause of its chain, provided that reading the base64 text of each byte
/// string in it gives that byte string back.
pub proof fn lemma_failure_round_trip(f: FailureView)
    requires
        failure_restorable(f),
    ensures
        json_failure(failure_json(f)) == Ok::<FailureView, DecodeError>(f),
    decreases f,
{
    lemma_failure_members(f);
    lemma_payloads_round_trip(f.details);
    let members = failure_json(f)->Object_0;
    if f.details.len() == 0 {
        assert(f.details =~= Seq::empty());
    }
    let own = FailureView { cause: None, ..f };
    assert(members_failure(members) == Ok::<FailureView, DecodeError>(own));
    match f.cause {
        Some(cause) => {
            lemma_failure_round_trip(*cause);
            assert(members["cause"@] == failure_json(*cause));
            assert(Box::new(*cause) == cause);
        },
        None => {},
    }
}

/// Whether neither the failure nor any of its causes has details.
pub open spec fn without_details(f: FailureView) -> bool
    decreases f,
{
    f.details.len() == 0 && match f.cause {
        Some(cause) => without_details(*cause),
        None => true,
    }
}

/// A chain of failures without details holds no byte string: it can be
/// written, and decoding its envelope gives it back, however long it is.
pub proof fn lemma_chain_round_trip(f: FailureView)
    requires
        without_details(f),
    ensures
        failure_fits(f),
        failure_restorable(f),
        json_failure(failure_json(f)) == Ok::<FailureView, DecodeError>(f),
        chain_messages(json_failure(failure_json(f))->Ok_0) == chain_messages(f),
    decreases f,
{
    match f.cause {
        Some(cause) => {
            lemma_chain_round_trip(*cause);
        },
        None => {},
    }
    lemma_failure_round_trip(f);
}

/// Decoding the envelope of a failure keeps its chain of causes: as many
/// links, with the same messages in the same order.
pub proof fn lemma_chain_kept(f: FailureView)
    requires
        failure_restorable(f),
    ensures
        json_failure(failure_json(f)) is Ok,
        chain_messages(json_failure(failure_json(f))->Ok_0) == chain_messages(f),
        chain_messages(json_failure(failure_json(f))->Ok_0).len() == chain_messages(f).len(),
{
    lemma_failure_round_trip(f);
}

impl Default for Failure {
    /// The failure with an empty message and nothing else.
    fn default() -> (f: Failure)
        ensures
            f@ == plain_failure(Seq::empty()),
    {
        Failure::new(String::new())
    }
}

impl Failure {
    /// A failure with a message and nothing else.
    pub fn new(message: String) -> (f: Failure)
        ensures
            f@ == plain_failure(message@),
    {
        let details: Vec<Payload> = Vec::new();
        assert(payload_views(details@) =~= Seq::empty());
        Failure { message, kind: None, non_retryable: false, details, cause: None }
    }

    /// Writes the failure as its envelope.
    ///
    /// Fails only where the base64 text of a byte string would be too long
    /// to hold. What it returns is read back by [`Failure::decode`] as the
    /// same failure.
    pub fn encode(&self) -> (r: Result<serde_json::Value, EncodeError>)
        ensures
            match r {
                Ok(j) => failure_fits(self@) && json_of(j) == failure_json(self@)
                    && failure_restorable(self@) && json_failure(json_of(j)) == Ok::<
                    FailureView,
                    DecodeError,
                >(self@),
                Err(e) => !failure_fits(self@) && e == EncodeError::TooLong,
            },
        decreases self,
    {
        let mut members = new_members();
        set_member(&mut members, "message".to_owned(), string_value(self.message.clone()));
        if let Some(kind) = &self.kind {
            set_member(&mut members, "type".to_owned(), string_value(kind.clone()));
        }
        if !is_false(&self.non_retryable) {
            set_member(&mut members, "non_retryable".to_owned(), bool_value(true));
        }
        if self.details.len() != 0 {
            let details = encode_all(&self.details)?;
            set_member(&mut members, "details".to_owned(), details);
        } else {
            assert(payloads_fit(self@.details) && payloads_restorable(self@.details));
        }
        if let Some(cause) = &self.cause {
            let inner = cause.encode()?;
            set_member(&mut members, "cause".to_owned(), inner);
        }
        proof {
            lemma_failure_round_trip(self@);
        }
        Ok(object_value(members))
    }

    /// Reads a failure from its envelope.
    pub fn decode(v: &serde_json::Value) -> (r: Result<Failure, DecodeError>)
        ensures
            decoded_failure(r) == json_failure(json_of(*v)),
        decreases json_of(*v),
    {
        let members = match as_object(v) {
            Some(members) => members,
            None => {
                return Err(DecodeError::Shape(Field::Envelope));
            },
        };
        let message = match get_member(members, "message") {
            Some(j) => match as_str(j) {
                Some(message) => message.to_owned(),
                None => {
                    return Err(DecodeError::Shape(Field::Message));
                },
            },
            None => {
                return Err(DecodeError::Shape(Field::Message));
            },
        };
        let kind = match get_member(members, "type") {
            None => None,
            Some(j) => match as_str(j) {
                Some(kind) => Some(kind.to_owned()),
                None => {
                    return Err(DecodeError::Shape(Field::Kind));
                },
            },
        };
        let non_retryable = match get_member(members, "non_retryable") {
            None => false,
            Some(j) => match as_bool(j) {
                Some(b) => b,
                None => {
                    return Err(DecodeError::Shape(Field::NonRetryable));
                },
            },
        };
        let details = match get_member(members, "details") {
            None => {
                let details: Vec<Payload> = Vec::new();
                assert(payload_views(details@) =~= Seq::empty());
                details
            },
            Some(j) => match as_array(j) {
                Some(items) => decode_all(items)?,
                None => {
                    return Err(DecodeError::Shape(Field::Details));
                },
            },
        };
        let cause = match get_member(members, "cause") {
            None => None,
            Some(j) => {
                proof {
                    let whole = json_of(*v);
                    assert(decreases_to!(whole => whole->Object_0));
                    assert(decreases_to!(whole->Object_0 => whole->Object_0["cause"@]));
                }
                Some(Box::new(Failure::decode(j)?))
            },
        };
        Ok(Failure { message, kind, non_retryable, details, cause })
    }

    /// Writes the failure as the JSON text of its envelope.
    ///
    /// Where the JSON reader reads the text back as the envelope that was
    /// written, [`Failure::from_bytes`] gives the failure back.
    pub fn to_bytes(&self) -> (r: Result<Vec<u8>, EncodeError>)
        ensures
            written(r) == failure_text(self@),
            r matches Ok(text) ==> (json_parse(text@) == Some(failure_json(self@))
                ==> text_failure(text@) == Ok::<FailureView, DecodeError>(self@)),
    {
        let envelope = self.encode()?;
        match render(&envelope) {
            Ok(text) => Ok(text),
            Err(_) => Err(EncodeError::Render),
        }
    }

    /// Reads a failure from the JSON text of its envelope.
    pub fn from_bytes(text: &[u8]) -> (r: Result<Failure, DecodeError>)
        ensures
            decoded_failure(r) == text_failure(text@),
    {
        match parse(text) {
            Ok(envelope) => Failure::decode(&envelope),
            Err(_) => Err(DecodeError::Syntax),
        }
    }
}

/// Whether a flag is down: a flag that is down is left out of an envelope.
pub fn is_false(b: &bool) -> (r: bool)
    ensures
        r == !*b,
{
    !*b
}

} // verus!

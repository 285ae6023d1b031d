//! The payload: the unit of data that crosses the boundary, and its envelope.

use crate::base64::{binary_json, bytes_fit, json_binary, restorable};
use crate::base64_string_map::{all_fit, all_restorable, json_metadata, metadata_json};
use crate::error::{DecodeError, EncodeError, Field};
use crate::json::{
    array_value, as_object, get_member, json_of, json_parse, json_text, jsons_of, member,
    new_members, no_members, object_value, parse, render, set_member, string_value,
    with_member, Json,
};
use crate::metadata::Metadata;
use vstd::prelude::*;

verus! {

/// Binary data, and metadata that says how to read it.
///
/// By convention the metadata holds, under `encoding`, the name of the
/// serialization of the data.
#[derive(Debug)]
pub struct Payload {
    pub metadata: Metadata,
    pub data: Vec<u8>,
}

/// What a payload holds.
pub struct PayloadView {
    pub metadata: Map<Seq<char>, Seq<u8>>,
    pub data: Seq<u8>,
}

impl View for Payload {
    type V = PayloadView;

    open spec fn view(&self) -> PayloadView {
        PayloadView { metadata: self.metadata@, data: self.data@ }
    }
}

/// The metadata without any key.
pub open spec fn no_metadata() -> Map<Seq<char>, Seq<u8>> {
    Map::empty()
}

/// The payload that stands for no value: no metadata and no data.
pub open spec fn no_payload() -> PayloadView {
    PayloadView { metadata: no_metadata(), data: Seq::empty() }
}

/// The `metadata` member of a payload's envelope: none for no metadata.
pub open spec fn metadata_member(metadata: Map<Seq<char>, Seq<u8>>) -> Option<Json> {
    if metadata == no_metadata() {
        None
    } else {
        Some(metadata_json(metadata))
    }
}

/// The `data` member of a payload's envelope: none for no data.
pub open spec fn data_member(data: Seq<u8>) -> Option<Json> {
    if data.len() == 0 {
        None
    } else {
        Some(binary_json(data))
    }
}

/// The envelope of a payload: an object with at most the members `metadata`
/// and `data`, each left out where the payload has none.
pub open spec fn payload_json(p: PayloadView) -> Json {
    Json::Object(
        with_member(
            with_member(no_members(), "metadata"@, metadata_member(p.metadata)),
            "data"@,
            data_member(p.data),
        ),
    )
}

/// The metadata that an envelope's members give: none where `metadata` is
/// missing.
pub open spec fn members_metadata(members: Map<Seq<char>, Json>) -> Result<
    Map<Seq<char>, Seq<u8>>,
    DecodeError,
> {
    match member(members, "metadata"@) {
        None => Ok(no_metadata()),
        Some(j) => match json_metadata(j) {
            Ok(metadata) => Ok(metadata),
            Err(flaw) => Err(DecodeError::at(flaw, Field::Metadata)),
        },
    }
}

/// The data that an envelope's members give: none where `data` is missing.
pub open spec fn members_data(members: Map<Seq<char>, Json>) -> Result<Seq<u8>, DecodeError> {
    match member(members, "data"@) {
        None => Ok(Seq::empty()),
        Some(j) => match json_binary(j) {
            Ok(data) => Ok(data),
            Err(flaw) => Err(DecodeError::at(flaw, Field::Data)),
        },
    }
}

/// The payload that an envelope holds, or the first thing wrong with it: the
/// envelope itself, then its metadata, then its data. Members under other
/// keys are passed over.
pub open spec fn json_payload(j: Json) -> Result<PayloadView, DecodeError> {
    match j {
        Json::Object(members) => match members_metadata(members) {
            Err(e) => Err(e),
            Ok(metadata) => match members_data(members) {
                Err(e) => Err(e),
                Ok(data) => Ok(PayloadView { metadata, data }),
            },
        },
        _ => Err(DecodeError::Shape(Field::Envelope)),
    }
}

/// Whether the payload names the given encoding: its metadata holds, under
/// `encoding`, the tag's bytes.
pub open spec fn has_encoding(p: PayloadView, tag: Seq<char>) -> bool {
    p.metadata.contains_key("encoding"@) && p.metadata["encoding"@] == vstd::utf8::encode_utf8(tag)
}

/// The payload that carries a JSON text under the encoding `json/plain`.
pub open spec fn plain_json(text: Seq<u8>) -> PayloadView {
    PayloadView {
        metadata: no_metadata().insert("encoding"@, vstd::utf8::encode_utf8("json/plain"@)),
        data: text,
    }
}

/// The payload that carries a JSON value as its text, where the value can be
/// written.
pub open spec fn json_carrier(j: Json) -> Result<PayloadView, EncodeError> {
    match json_text(j) {
        Some(text) => Ok(plain_json(text)),
        None => Err(EncodeError::Render),
    }
}

/// The JSON text of a payload's envelope: `TooLong` where the base64 text of
/// a byte string would be too long to hold, `Render` where the JSON writer
/// gives up.
pub open spec fn payload_text(p: PayloadView) -> Result<Seq<u8>, EncodeError> {
    if !payload_fits(p) {
        Err(EncodeError::TooLong)
    } else {
        match json_text(payload_json(p)) {
            Some(text) => Ok(text),
            None => Err(EncodeError::Render),
        }
    }
}

/// What was written, seen as a sequence of bytes.
pub open spec fn written(r: Result<Vec<u8>, EncodeError>) -> Result<Seq<u8>, EncodeError> {
    match r {
        Ok(text) => Ok(text@),
        Err(e) => Err(e),
    }
}

/// What was made, seen as what it holds.
pub open spec fn made(r: Result<Payload, EncodeError>) -> Result<PayloadView, EncodeError> {
    match r {
        Ok(p) => Ok(p@),
        Err(e) => Err(e),
    }
}

/// The payload that a JSON text holds, or the first thing wrong with it.
pub open spec fn text_payload(text: Seq<u8>) -> Result<PayloadView, DecodeError> {
    match json_parse(text) {
        None => Err(DecodeError::Syntax),
        Some(j) => json_payload(j),
    }
}

/// Whether the text of every byte string of the payload is short enough to
/// be made.
pub open spec fn payload_fits(p: PayloadView) -> bool {
    all_fit(p.metadata) && bytes_fit(p.data)
}

/// Whether reading the text of any byte string in the payload's envelope
/// gives the byte string back.
pub open spec fn payload_restorable(p: PayloadView) -> bool {
    all_restorable(p.metadata) && (p.data.len() == 0 || restorable(p.data))
}

/// What was decoded, seen as what it holds.
pub open spec fn decoded(r: Result<Payload, DecodeError>) -> Result<PayloadView, DecodeError> {
    match r {
        Ok(p) => Ok(p@),
        Err(e) => Err(e),
    }
}

/// What a sequence of payloads holds, one for one.
pub open spec fn payload_views(payloads: Seq<Payload>) -> Seq<PayloadView> {
    payloads.map_values(|p: Payload| p@)
}

/// The envelopes of a sequence of payloads, in their order.
pub open spec fn payloads_json(payloads: Seq<PayloadView>) -> Seq<Json> {
    payloads.map_values(|p: PayloadView| payload_json(p))
}

/// The payloads that a sequence of envelopes holds, in their order, or the
/// first thing wrong with the first envelope that has something wrong.
pub open spec fn json_payloads(items: Seq<Json>) -> Result<Seq<PayloadView>, DecodeError>
    decreases items.len(),
{
    if items.len() == 0 {
        Ok(Seq::empty())
    } else {
        match json_payloads(items.drop_last()) {
            Err(e) => Err(e),
            Ok(payloads) => match json_payload(items.last()) {
                Err(e) => Err(e),
                Ok(p) => Ok(payloads.push(p)),
            },
        }
    }
}

/// Whether each payload of the sequence fits.
pub open spec fn payloads_fit(payloads: Seq<PayloadView>) -> bool {
    forall|i: int| 0 <= i < payloads.len() ==> payload_fits(#[trigger] payloads[i])
}

/// Whether each payload of the sequence is restorable.
pub open spec fn payloads_restorable(payloads: Seq<PayloadView>) -> bool {
    forall|i: int| 0 <= i < payloads.len() ==> payload_restorable(#[trigger] payloads[i])
}

/// What was decoded, seen as what it holds.
pub open spec fn decoded_all(r: Result<Vec<Payload>, DecodeError>) -> Result<
    Seq<PayloadView>,
    DecodeError,
> {
    match r {
        Ok(payloads) => Ok(payload_views(payloads@)),
        Err(e) => Err(e),
    }
}

/// The two keys of a payload's envelope differ.
proof fn lemma_payload_keys()
    ensures
        "metadata"@ != "data"@,
{
    reveal_strlit("metadata");
    reveal_strlit("data");
    assert("metadata"@.len() != "data"@.len());
}

/// A member is in the envelope exactly where the payload has something to
/// put there: no metadata means no `metadata`, no data means no `data`, and
/// there is never any other member.
pub proof fn lemma_empty_fields_omitted(p: PayloadView)
    ensures
        payload_json(p) is Object,
        payload_json(p)->Object_0.contains_key("metadata"@) <==> p.metadata != no_metadata(),
        payload_json(p)->Object_0.contains_key("data"@) <==> p.data.len() != 0,
        forall|k: Seq<char>| #[trigger]
            payload_json(p)->Object_0.contains_key(k) ==> k == "metadata"@ || k == "data"@,
        p == no_payload() ==> payload_json(p) == Json::Object(no_members()),
{
    lemma_payload_keys();
    if p == no_payload() {
        assert(payload_json(p)->Object_0 =~= no_members());
    }
}

/// An envelope without `metadata` holds no metadata, one without `data`
/// holds no data, and the empty envelope holds the payload that stands for
/// no value.
pub proof fn lemma_missing_members(members: Map<Seq<char>, Json>)
    ensures
        !members.contains_key("metadata"@) ==> members_metadata(members) == Ok::<
            Map<Seq<char>, Seq<u8>>,
            DecodeError,
        >(no_metadata()),
        !members.contains_key("data"@) ==> members_data(members) == Ok::<Seq<u8>, DecodeError>(
            Seq::empty(),
        ),
        json_payload(Json::Object(no_members())) == Ok::<PayloadView, DecodeError>(no_payload()),
{
}

/// Decoding the envelope of a payload gives the payload back, provided that
/// reading the base64 text of each of its byte strings gives that byte
/// string back.
pub proof fn lemma_payload_round_trip(p: PayloadView)
    requires
        payload_restorable(p),
    ensures
        json_payload(payload_json(p)) == Ok::<PayloadView, DecodeError>(p),
{
    lemma_payload_keys();
    crate::base64_string_map::lemma_metadata_round_trip(p.metadata);
    let members = payload_json(p)->Object_0;
    if p.metadata == no_metadata() {
        assert(member(members, "metadata"@) is None);
    } else {
        assert(member(members, "metadata"@) == Some(metadata_json(p.metadata)));
    }
    if p.data.len() == 0 {
        assert(member(members, "data"@) is None);
        assert(p.data =~= Seq::empty());
    } else {
        assert(member(members, "data"@) == Some(binary_json(p.data)));
    }
}

/// Decoding the envelopes of a sequence of payloads gives the payloads back,
/// provided that each of them is restorable.
pub proof fn lemma_payloads_round_trip(payloads: Seq<PayloadView>)
    requires
        payloads_restorable(payloads),
    ensures
        json_payloads(payloads_json(payloads)) == Ok::<Seq<PayloadView>, DecodeError>(payloads),
    decreases payloads.len(),
{
    if payloads.len() == 0 {
        assert(payloads =~= Seq::empty());
    } else {
        let front = payloads.drop_last();
        assert(payloads_restorable(front)) by {
            assert forall|i: int| 0 <= i < front.len() implies payload_restorable(
                #[trigger] front[i],
            ) by {
                assert(front[i] == payloads[i]);
            }
        }
        lemma_payloads_round_trip(front);
        lemma_payload_round_trip(payloads.last());
        assert(payloads_json(payloads).drop_last() =~= payloads_json(front));
        assert(payloads_json(payloads).last() == payload_json(payloads.last()));
        assert(front.push(payloads.last()) =~= payloads);
    }
}

/// Writes payloads as the array of their envelopes.
///
/// Fails only where the base64 text of a byte string would be too long to
/// hold. What it returns is read back by [`decode_all`] as the same payloads.
pub fn encode_all(payloads: &Vec<Payload>) -> (r: Result<serde_json::Value, EncodeError>)
    ensures
        match r {
            Ok(j) => payloads_fit(payload_views(payloads@)) && json_of(j) == Json::Array(
                payloads_json(payload_views(payloads@)),
            ) && payloads_restorable(payload_views(payloads@)) && json_payloads(
                payloads_json(payload_views(payloads@)),
            ) == Ok::<Seq<PayloadView>, DecodeError>(payload_views(payloads@)),
            Err(e) => !payloads_fit(payload_views(payloads@)) && e == EncodeError::TooLong,
        },
{
    let ghost views = payload_views(payloads@);
    let mut items: Vec<serde_json::Value> = Vec::new();
    let mut i: usize = 0;
    while i < payloads.len()
        invariant
            i <= payloads.len(),
            views == payload_views(payloads@),
            items@.len() == i,
            forall|j: int| 0 <= j < i ==> json_of(#[trigger] items@[j]) == payload_json(views[j]),
            forall|j: int|
                0 <= j < i ==> payload_fits(#[trigger] views[j]) && payload_restorable(views[j]),
        decreases payloads.len() - i,
    {
        match payloads[i].encode() {
            Ok(j) => {
                items.push(j);
            },
            Err(e) => {
                assert(!payload_fits(views[i as int]));
                return Err(e);
            },
        }
        i += 1;
    }
    assert(jsons_of(items@) =~= payloads_json(views));
    proof {
        lemma_payloads_round_trip(views);
    }
    Ok(array_value(items))
}

/// Reads payloads from their envelopes, in their order.
pub fn decode_all(items: &Vec<serde_json::Value>) -> (r: Result<Vec<Payload>, DecodeError>)
    ensures
        decoded_all(r) == json_payloads(jsons_of(items@)),
{
    let ghost all = jsons_of(items@);
    let mut payloads: Vec<Payload> = Vec::new();
    let mut i: usize = 0;
    assert(all.take(0).len() == 0);
    assert(payload_views(payloads@) =~= Seq::empty());
    while i < items.len()
        invariant
            i <= items.len(),
            all == jsons_of(items@),
            json_payloads(all.take(i as int)) == Ok::<Seq<PayloadView>, DecodeError>(
                payload_views(payloads@),
            ),
        decreases items.len() - i,
    {
        let ghost next = all.take(i + 1);
        assert(next.drop_last() == all.take(i as int));
        assert(next.last() == json_of(items@[i as int]));
        match Payload::decode(&items[i]) {
            Ok(p) => {
                let ghost before = payload_views(payloads@);
                let ghost view = p@;
                payloads.push(p);
                assert(payload_views(payloads@) =~= before.push(view));
            },
            Err(e) => {
                proof {
                    lemma_first_error(all, i as int);
                }
                return Err(e);
            },
        }
        i += 1;
    }
    assert(all.take(items.len() as int) == all);
    Ok(payloads)
}

/// Where the envelopes before a position hold payloads and the one at the
/// position does not, its error is the error of the sequence.
proof fn lemma_first_error(items: Seq<Json>, i: int)
    requires
        0 <= i < items.len(),
        json_payloads(items.take(i)) is Ok,
        json_payload(items[i]) is Err,
    ensures
        json_payloads(items) == Err::<Seq<PayloadView>, DecodeError>(
            json_payload(items[i])->Err_0,
        ),
    decreases items.len(),
{
    let front = items.drop_last();
    if i == items.len() - 1 {
        assert(items.take(i) == front);
    } else {
        assert(front.take(i) == items.take(i));
        assert(front[i] == items[i]);
        lemma_first_error(front, i);
    }
}

impl Default for Payload {
    /// The payload that stands for no value.
    fn default() -> (p: Payload)
        ensures
            p@ == no_payload(),
    {
        Payload { metadata: Metadata::new(), data: Vec::new() }
    }
}

impl Payload {
    /// Writes the payload as its envelope.
    ///
    /// Fails only where the base64 text of a byte string would be too long
    /// to hold. What it returns is read back by [`Payload::decode`] as the
    /// same payload.
    pub fn encode(&self) -> (r: Result<serde_json::Value, EncodeError>)
        ensures
            match r {
                Ok(j) => payload_fits(self@) && json_of(j) == payload_json(self@)
                    && payload_restorable(self@) && json_payload(json_of(j)) == Ok::<
                    PayloadView,
                    DecodeError,
                >(self@),
                Err(e) => !payload_fits(self@) && e == EncodeError::TooLong,
            },
    {
        let mut members = new_members();
        if !self.metadata.is_empty() {
            let metadata = crate::base64_string_map::serialize(&self.metadata)?;
            set_member(&mut members, "metadata".to_owned(), metadata);
        } else {
            assert(all_fit(self@.metadata) && all_restorable(self@.metadata));
        }
        if self.data.len() != 0 {
            let data = match crate::base64::serialize(&self.data) {
                Ok(data) => data,
                Err(e) => {
                    return Err(e);
                },
            };
            set_member(&mut members, "data".to_owned(), data);
        } else {
            assert(self.data@ =~= Seq::empty());
            assert(bytes_fit(self.data@));
        }
        proof {
            lemma_payload_round_trip(self@);
        }
        Ok(object_value(members))
    }

    /// Reads a payload from its envelope.
    pub fn decode(v: &serde_json::Value) -> (r: Result<Payload, DecodeError>)
        ensures
            decoded(r) == json_payload(json_of(*v)),
    {
        let members = match as_object(v) {
            Some(members) => members,
            None => {
                return Err(DecodeError::Shape(Field::Envelope));
            },
        };
        let metadata = match get_member(members, "metadata") {
            None => Metadata::new(),
            Some(j) => match crate::base64_string_map::deserialize(j) {
                Ok(metadata) => metadata,
                Err(flaw) => {
                    return Err(DecodeError::locate(flaw, Field::Metadata));
                },
            },
        };
        let data = match get_member(members, "data") {
            None => Vec::new(),
            Some(j) => match crate::base64::deserialize(j) {
                Ok(data) => data,
                Err(flaw) => {
                    return Err(DecodeError::locate(flaw, Field::Data));
                },
            },
        };
        Ok(Payload { metadata, data })
    }

    /// The payload that carries a JSON value as its text, under the
    /// encoding `json/plain`. Fails where the JSON writer gives up.
    pub fn from_json(value: &serde_json::Value) -> (r: Result<Payload, EncodeError>)
        ensures
            made(r) == json_carrier(json_of(*value)),
            r matches Ok(p) ==> has_encoding(p@, "json/plain"@),
    {
        let data = match render(value) {
            Ok(data) => data,
            Err(_) => {
                return Err(EncodeError::Render);
            },
        };
        let mut metadata = Metadata::new();
        metadata.insert("encoding".to_owned(), vstd::slice::slice_to_vec("json/plain".as_bytes()));
        Ok(Payload { metadata, data })
    }

    /// The payload that carries a string as JSON text, under the encoding
    /// `json/plain`. Fails where the JSON writer gives up.
    pub fn from_json_string(s: &str) -> (r: Result<Payload, EncodeError>)
        ensures
            made(r) == json_carrier(Json::Str(s@)),
            r matches Ok(p) ==> has_encoding(p@, "json/plain"@),
    {
        Payload::from_json(&string_value(s.to_owned()))
    }

    /// Writes the payload as the JSON text of its envelope.
    ///
    /// Where the JSON reader reads the text back as the envelope that was
    /// written, [`Payload::from_bytes`] gives the payload back.
    pub fn to_bytes(&self) -> (r: Result<Vec<u8>, EncodeError>)
        ensures
            written(r) == payload_text(self@),
            r matches Ok(text) ==> (json_parse(text@) == Some(payload_json(self@))
                ==> text_payload(text@) == Ok::<PayloadView, DecodeError>(self@)),
    {
        let envelope = self.encode()?;
        match render(&envelope) {
            Ok(text) => Ok(text),
            Err(_) => Err(EncodeError::Render),
        }
    }

    /// Reads a payload from the JSON text of its envelope.
    pub fn from_bytes(text: &[u8]) -> (r: Result<Payload, DecodeError>)
        ensures
            decoded(r) == text_payload(text@),
    {
        match parse(text) {
            Ok(envelope) => Payload::decode(&envelope),
            Err(_) => Err(DecodeError::Syntax),
        }
    }
}

} // verus!

//! Metadata on the wire: a JSON object that holds, under each key, the
//! base64 text of the key's bytes.

use crate::base64::{binary_json, bytes_fit, json_binary, restorable};
use crate::error::{EncodeError, Flaw};
use crate::json::{
    as_object, get_member, json_of, member_keys, members_of, new_members, object_value,
    set_member, Json,
};
use crate::metadata::{lemma_pairs_map_keys, pairs_map, Metadata};
use vstd::prelude::*;

verus! {

/// The JSON object that carries the metadata.
pub open spec fn metadata_json(m: Map<Seq<char>, Seq<u8>>) -> Json {
    Json::Object(m.map_values(|bytes: Seq<u8>| binary_json(bytes)))
}

/// The metadata that a JSON value carries, or what is wrong with it.
///
/// It must be an object. A member that is no string is a flaw of shape,
/// wherever it stands; only if all are strings is one that is no base64 text
/// a flaw of base64.
pub open spec fn json_metadata(j: Json) -> Result<Map<Seq<char>, Seq<u8>>, Flaw> {
    match j {
        Json::Object(members) => if exists|k: Seq<char>|
            members.contains_key(k) && json_binary(#[trigger] members[k]) == Err::<Seq<u8>, Flaw>(
                Flaw::Shape,
            ) {
            Err(Flaw::Shape)
        } else if exists|k: Seq<char>|
            members.contains_key(k) && json_binary(#[trigger] members[k]) is Err {
            Err(Flaw::Base64)
        } else {
            Ok(members.map_values(|x: Json| json_binary(x)->Ok_0))
        },
        _ => Err(Flaw::Shape),
    }
}

/// Whether the text of every value is short enough to be made.
pub open spec fn all_fit(m: Map<Seq<char>, Seq<u8>>) -> bool {
    forall|k: Seq<char>| m.contains_key(k) ==> bytes_fit(#[trigger] m[k])
}

/// Whether reading the text of any value gives the value back.
pub open spec fn all_restorable(m: Map<Seq<char>, Seq<u8>>) -> bool {
    forall|k: Seq<char>| m.contains_key(k) ==> restorable(#[trigger] m[k])
}

/// Metadata whose values can be read back from their texts can be read back
/// from its JSON object.
pub proof fn lemma_metadata_round_trip(m: Map<Seq<char>, Seq<u8>>)
    requires
        all_restorable(m),
    ensures
        json_metadata(metadata_json(m)) == Ok::<Map<Seq<char>, Seq<u8>>, Flaw>(m),
{
    let members = m.map_values(|bytes: Seq<u8>| binary_json(bytes));
    assert forall|k: Seq<char>| members.contains_key(k) implies json_binary(
        #[trigger] members[k],
    ) == Ok::<Seq<u8>, Flaw>(m[k]) by {
        assert(restorable(m[k]));
    }
    assert(members.map_values(|x: Json| json_binary(x)->Ok_0) =~= m);
}

/// Writes metadata as a JSON object of base64 texts.
///
/// Fails only where the text of a value would be too long to hold. What it
/// returns is read back by [`deserialize`] as the same metadata.
pub fn serialize(v: &Metadata) -> (r: Result<serde_json::Value, EncodeError>)
    ensures
        match r {
            Ok(j) => all_fit(v@) && json_of(j) == metadata_json(v@) && all_restorable(v@)
                && json_metadata(json_of(j)) == Ok::<Map<Seq<char>, Seq<u8>>, Flaw>(v@),
            Err(e) => !all_fit(v@) && e == EncodeError::TooLong,
        },
{
    let n = v.len();
    let ghost pairs = v.pairs();
    let mut members = new_members();
    let mut i: usize = 0;
    while i < n
        invariant
            i <= n,
            n == pairs.len(),
            pairs == v.pairs(),
            members_of(members) == pairs_map(pairs.take(i as int)).map_values(
                |bytes: Seq<u8>| binary_json(bytes),
            ),
            forall|j: int| 0 <= j < i ==> bytes_fit(#[trigger] pairs[j].1) && restorable(pairs[j].1),
        decreases n - i,
    {
        if let Some((key, bytes)) = v.entry(i) {
            match crate::base64::serialize(bytes) {
                Err(e) => {
                    return Err(e);
                },
                Ok(text) => {
                    set_member(&mut members, key.clone(), text);
                    proof {
                        let next = pairs.take(i + 1);
                        assert(next.drop_last() == pairs.take(i as int));
                        assert(next.last() == pairs[i as int]);
                        assert(members_of(members) == pairs_map(next).map_values(
                            |bytes: Seq<u8>| binary_json(bytes),
                        ));
                    }
                },
            }
        }
        i += 1;
    }
    proof {
        assert(pairs.take(n as int) == pairs);
        lemma_pairs_map_keys(pairs);
        assert forall|k: Seq<char>| v@.contains_key(k) implies bytes_fit(#[trigger] v@[k])
            && restorable(v@[k]) by {
            let j = choose|j: int| 0 <= j < pairs.len() && #[trigger] pairs[j].0 == k;
            crate::metadata::lemma_pairs_map_value(pairs, j);
        }
        lemma_metadata_round_trip(v@);
    }
    Ok(object_value(members))
}

/// Reads metadata from a JSON object of base64 texts.
pub fn deserialize(v: &serde_json::Value) -> (r: Result<Metadata, Flaw>)
    ensures
        match r {
            Ok(m) => json_metadata(json_of(*v)) == Ok::<Map<Seq<char>, Seq<u8>>, Flaw>(m@),
            Err(e) => json_metadata(json_of(*v)) == Err::<Map<Seq<char>, Seq<u8>>, Flaw>(e),
        },
{
    let members = match as_object(v) {
        Some(members) => members,
        None => {
            return Err(Flaw::Shape);
        },
    };
    let ghost all = members_of(*members);
    let keys = member_keys(members);
    let mut read = Metadata::new();
    let mut unreadable = false;
    let mut i: usize = 0;
    while i < keys.len()
        invariant
            i <= keys.len(),
            all == members_of(*members),
            json_of(*v) == Json::Object(all),
            forall|j: int| 0 <= j < keys@.len() ==> all.contains_key(#[trigger] keys@[j]@),
            forall|j: int|
                0 <= j < i ==> json_binary(all[#[trigger] keys@[j]@]) != Err::<Seq<u8>, Flaw>(
                    Flaw::Shape,
                ),
            unreadable <==> exists|j: int|
                0 <= j < i && json_binary(all[#[trigger] keys@[j]@]) is Err,
            forall|k: Seq<char>| #[trigger]
                read@.contains_key(k) <==> exists|j: int|
                    0 <= j < i && #[trigger] keys@[j]@ == k && json_binary(all[k]) is Ok,
            forall|k: Seq<char>|
                read@.contains_key(k) ==> #[trigger] read@[k] == json_binary(all[k])->Ok_0,
        decreases keys.len() - i,
    {
        let key = &keys[i];
        if let Some(x) = get_member(members, key.as_str()) {
            match crate::base64::deserialize(x) {
                Ok(bytes) => {
                    read.insert(key.clone(), bytes);
                },
                Err(Flaw::Shape) => {
                    assert(all.contains_key(key@) && json_binary(all[key@]) == Err::<
                        Seq<u8>,
                        Flaw,
                    >(Flaw::Shape));
                    return Err(Flaw::Shape);
                },
                Err(Flaw::Base64) => {
                    unreadable = true;
                },
            }
        }
        i += 1;
    }
    if unreadable {
        Err(Flaw::Base64)
    } else {
        proof {
            assert forall|k: Seq<char>| all.contains_key(k) implies json_binary(
                #[trigger] all[k],
            ) is Ok by {
                let j = choose|j: int| 0 <= j < keys@.len() && #[trigger] keys@[j]@ == k;
            }
            assert(read@ =~= all.map_values(|x: Json| json_binary(x)->Ok_0));
        }
        Ok(read)
    }
}

} // verus!

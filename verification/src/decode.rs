//! Decoding a response body into records.
//!
//! The body is JSON text. Its envelope is an object whose member `amiibo` is
//! an array, and every element of that array is an object with six text
//! members. Members beyond those are ignored. One element that does not fit
//! fails the whole body: there is no partial result.

use crate::json::{
    elements, json_model, json_models, json_parse, member, parse_value, text_of, Json,
};
use crate::record::{Amiibo, Data, Record};
use serde_json::Value;
use vstd::prelude::*;

verus! {

/// The text of member `key` of an object; `None` where `document` is no
/// object, has no such member, or has one that is not text.
pub open spec fn text_member(document: Json, key: Seq<char>) -> Option<Seq<char>> {
    match document {
        Json::Object(members) => if members.contains_key(key) {
            match members[key] {
                Json::Text(text) => Some(text),
                _ => None,
            }
        } else {
            None
        },
        _ => None,
    }
}

/// Whether `document` is an object that has all six text members.
pub open spec fn is_record(document: Json) -> bool {
    &&& text_member(document, "amiiboSeries"@) is Some
    &&& text_member(document, "character"@) is Some
    &&& text_member(document, "gameSeries"@) is Some
    &&& text_member(document, "head"@) is Some
    &&& text_member(document, "image"@) is Some
    &&& text_member(document, "name"@) is Some
}

/// The record that a JSON value stands for: the six texts of an object
/// that has them all. `None` where one of them is absent or not text.
pub open spec fn record_of(document: Json) -> Option<Record> {
    if is_record(document) {
        Some(
            Record {
                amiibo_series: text_member(document, "amiiboSeries"@)->0,
                character: text_member(document, "character"@)->0,
                game_series: text_member(document, "gameSeries"@)->0,
                head: text_member(document, "head"@)->0,
                image: text_member(document, "image"@)->0,
                name: text_member(document, "name"@)->0,
            },
        )
    } else {
        None
    }
}

/// The list under member `amiibo` of an object; `None` where `document` is
/// no object, lacks that member, or holds something other than an array
/// there.
pub open spec fn listed(document: Json) -> Option<Seq<Json>> {
    match document {
        Json::Object(members) => if members.contains_key("amiibo"@) {
            match members["amiibo"@] {
                Json::Array(items) => Some(items),
                _ => None,
            }
        } else {
            None
        },
        _ => None,
    }
}

/// Whether `document` is a well-formed envelope: it has a list, and every
/// element of the list is a record.
pub open spec fn is_envelope(document: Json) -> bool {
    &&& listed(document) matches Some(items)
    &&& forall|i: int| 0 <= i < items.len() ==> is_record(#[trigger] items[i])
}

/// The records of a list of JSON values, in the order of the list; `None`
/// as soon as one element is no record.
pub open spec fn records_of(items: Seq<Json>) -> Option<Seq<Record>> {
    if forall|i: int| 0 <= i < items.len() ==> (#[trigger] record_of(items[i])) is Some {
        Some(Seq::new(items.len(), |i: int| record_of(items[i])->0))
    } else {
        None
    }
}

/// The records of an envelope: those of the array under its member
/// `amiibo`. `None` where `document` is no object, lacks that member, holds
/// something other than an array there, or holds an element that is no
/// record.
pub open spec fn envelope_of(document: Json) -> Option<Seq<Record>> {
    match listed(document) {
        Some(items) => records_of(items),
        None => None,
    }
}

/// The records that a response body decodes to; `None` where the body is
/// not JSON or its document is no envelope.
pub open spec fn body_records(body: Seq<char>) -> Option<Seq<Record>> {
    match json_parse(body) {
        Some(document) => envelope_of(document),
        None => None,
    }
}

/// Reads member `key` of `value` as text.
fn read_text(value: &Value, key: &str) -> (r: Option<String>)
    ensures
        match r {
            Some(text) => text_member(json_model(*value), key@) == Some(text@),
            None => text_member(json_model(*value), key@) is None,
        },
{
    match member(value, key) {
        Some(found) => match text_of(found) {
            Some(text) => Some(text.to_owned()),
            None => None,
        },
        None => None,
    }
}

/// Decodes one element of the list.
pub fn decode_record(value: &Value) -> (r: Option<Amiibo>)
    ensures
        match r {
            Some(record) => record_of(json_model(*value)) == Some(record@),
            None => record_of(json_model(*value)) is None,
        },
{
    let amiibo_series = match read_text(value, "amiiboSeries") {
        Some(text) => text,
        None => return None,
    };
    let character = match read_text(value, "character") {
        Some(text) => text,
        None => return None,
    };
    let game_series = match read_text(value, "gameSeries") {
        Some(text) => text,
        None => return None,
    };
    let head = match read_text(value, "head") {
        Some(text) => text,
        None => return None,
    };
    let image = match read_text(value, "image") {
        Some(text) => text,
        None => return None,
    };
    let name = match read_text(value, "name") {
        Some(text) => text,
        None => return None,
    };
    Some(Amiibo { amiibo_series, character, game_series, head, image, name })
}

/// Decodes every element of a list, or none of them.
pub fn decode_records(list: &Vec<Value>) -> (r: Option<Vec<Amiibo>>)
    ensures
        match r {
            Some(records) => records_of(json_models(list@)) == Some(records.deep_view()),
            None => records_of(json_models(list@)) is None,
        },
{
    let ghost items = json_models(list@);
    let mut records: Vec<Amiibo> = Vec::new();
    let mut i: usize = 0;
    while i < list.len()
        invariant
            i <= list.len(),
            items == json_models(list@),
            records@.len() == i,
            forall|k: int| 0 <= k < i ==> record_of(items[k]) == Some(#[trigger] records@[k]@),
        decreases list.len() - i,
    {
        match decode_record(&list[i]) {
            Some(record) => {
                records.push(record);
            },
            None => {
                assert(record_of(items[i as int]) is None);
                return None;
            },
        }
        i += 1;
    }
    proof {
        assert forall|k: int| 0 <= k < items.len() implies (#[trigger] record_of(items[k]))
            == Some(records@[k]@) by {
            assert(record_of(items[k]) == Some(records@[k]@));
        }
        assert(records.deep_view() =~= records_of(items)->0);
    }
    Some(records)
}

/// Decodes a parsed document as an envelope.
pub fn decode_value(value: &Value) -> (r: Option<Data>)
    ensures
        match r {
            Some(data) => envelope_of(json_model(*value)) == Some(data@),
            None => envelope_of(json_model(*value)) is None,
        },
{
    let list = match member(value, "amiibo") {
        Some(found) => match elements(found) {
            Some(list) => list,
            None => return None,
        },
        None => return None,
    };
    match decode_records(list) {
        Some(amiibo) => Some(Data { amiibo }),
        None => None,
    }
}

/// Decodes a response body: parses it as JSON and reads the document as an
/// envelope.
pub fn decode_body(body: &str) -> (r: Option<Data>)
    ensures
        match r {
            Some(data) => body_records(body@) == Some(data@),
            None => body_records(body@) is None,
        },
{
    match parse_value(body) {
        Ok(value) => decode_value(&value),
        Err(_) => None,
    }
}

} // verus!

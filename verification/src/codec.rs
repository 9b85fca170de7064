//! Field extraction from JSON objects, exec and spec side by side.
//!
//! Each `get_*` function reads one field of an object's member list and
//! returns `MalformedResponse` exactly when the matching `f_*` spec
//! function says the object does not carry the field in the required
//! shape.  Optional fields treat a missing member and an explicit
//! `null` alike, as the modelled wire format does.

use vstd::prelude::*;

verus! {

use crate::duration::TrackDuration;
use crate::error::ApiError;
use crate::json::{lookup, lookup_key, pairs_view, Json, JsonPair, JsonV};

/// An object's member list at the spec level.
pub type ObjV = Seq<(Seq<char>, JsonV)>;

/// A required string field.
pub open spec fn f_str(o: ObjV, key: Seq<char>) -> Option<Seq<char>> {
    match lookup(o, key) {
        Some(JsonV::Str(s)) => Some(s),
        _ => None,
    }
}

/// An optional string field: a missing member and `null` both read as
/// `None`.
pub open spec fn f_opt_str(o: ObjV, key: Seq<char>) -> Option<Option<Seq<char>>> {
    match lookup(o, key) {
        None => Some(None),
        Some(JsonV::Null) => Some(None),
        Some(JsonV::Str(s)) => Some(Some(s)),
        _ => None,
    }
}

/// A required boolean field.
pub open spec fn f_bool(o: ObjV, key: Seq<char>) -> Option<bool> {
    match lookup(o, key) {
        Some(JsonV::Bool(b)) => Some(b),
        _ => None,
    }
}

/// An optional boolean field.
pub open spec fn f_opt_bool(o: ObjV, key: Seq<char>) -> Option<Option<bool>> {
    match lookup(o, key) {
        None => Some(None),
        Some(JsonV::Null) => Some(None),
        Some(JsonV::Bool(b)) => Some(Some(b)),
        _ => None,
    }
}

/// A required signed 32-bit integer field.
pub open spec fn f_i32(o: ObjV, key: Seq<char>) -> Option<i32> {
    match lookup(o, key) {
        Some(JsonV::Int(v)) => if i32::MIN <= v <= i32::MAX {
            Some(v as i32)
        } else {
            None
        },
        _ => None,
    }
}

/// A required unsigned 32-bit integer field.
pub open spec fn f_u32(o: ObjV, key: Seq<char>) -> Option<u32> {
    match lookup(o, key) {
        Some(JsonV::Int(v)) => if 0 <= v <= u32::MAX {
            Some(v as u32)
        } else {
            None
        },
        _ => None,
    }
}

/// A required millisecond-count field, read into a duration value.
pub open spec fn f_millis(o: ObjV, key: Seq<char>) -> Option<TrackDuration> {
    match lookup(o, key) {
        Some(JsonV::Int(v)) => if v >= 0 {
            Some(TrackDuration::spec_from_millis(v as u64))
        } else {
            None
        },
        _ => None,
    }
}

/// A millisecond field that reads at all reads as a wire-shaped
/// duration.
pub proof fn lemma_f_millis_wire(o: ObjV, key: Seq<char>)
    ensures
        f_millis(o, key) matches Some(d) ==> d.from_wire(),
{
    if f_millis(o, key) is Some {
        let v = lookup(o, key)->Some_0->Int_0;
        crate::duration::lemma_from_millis_wire(v as u64);
    }
}

/// Whether every member of an object carries a string value.
pub open spec fn all_str_values(o: ObjV) -> bool {
    forall|i: int| 0 <= i < o.len() ==> o[i].1 is Str
}

/// The members of an all-string object, as plain pairs of characters.
pub open spec fn str_entries_of(o: ObjV) -> Seq<(Seq<char>, Seq<char>)> {
    Seq::new(o.len(), |i: int| (o[i].0, o[i].1->Str_0))
}

/// A required string-to-string mapping field.
pub open spec fn f_str_map(o: ObjV, key: Seq<char>) -> Option<Seq<(Seq<char>, Seq<char>)>> {
    match lookup(o, key) {
        Some(JsonV::Obj(entries)) => if all_str_values(entries) {
            Some(str_entries_of(entries))
        } else {
            None
        },
        _ => None,
    }
}

/// Whether every element of an array is a string.
pub open spec fn all_str_items(items: Seq<JsonV>) -> bool {
    forall|i: int| 0 <= i < items.len() ==> items[i] is Str
}

/// The elements of an all-string array, as plain character sequences.
pub open spec fn str_items_of(items: Seq<JsonV>) -> Seq<Seq<char>> {
    Seq::new(items.len(), |i: int| items[i]->Str_0)
}

/// A string-array field that defaults to the empty list when the member
/// is missing.
pub open spec fn f_str_arr_default(o: ObjV, key: Seq<char>) -> Option<Seq<Seq<char>>> {
    match lookup(o, key) {
        None => Some(Seq::empty()),
        Some(JsonV::Arr(items)) => if all_str_items(items) {
            Some(str_items_of(items))
        } else {
            None
        },
        _ => None,
    }
}

/// An optional string-array field.
pub open spec fn f_opt_str_arr(o: ObjV, key: Seq<char>) -> Option<Option<Seq<Seq<char>>>> {
    match lookup(o, key) {
        None => Some(None),
        Some(JsonV::Null) => Some(None),
        Some(JsonV::Arr(items)) => if all_str_items(items) {
            Some(Some(str_items_of(items)))
        } else {
            None
        },
        _ => None,
    }
}

/// The view of a list of plain string pairs.
pub open spec fn str_entries_view(s: Seq<(String, String)>) -> Seq<(Seq<char>, Seq<char>)> {
    Seq::new(s.len(), |i: int| (s[i].0@, s[i].1@))
}

/// The view of a list of plain strings.
pub open spec fn str_seq_view(s: Seq<String>) -> Seq<Seq<char>> {
    Seq::new(s.len(), |i: int| s[i]@)
}

/// An all-string object whose members carry the given entries.
pub open spec fn ser_str_map(entries: Seq<(Seq<char>, Seq<char>)>) -> JsonV {
    JsonV::Obj(Seq::new(entries.len(), |i: int| (entries[i].0, JsonV::Str(entries[i].1))))
}

/// An all-string array carrying the given elements.
pub open spec fn ser_str_arr(items: Seq<Seq<char>>) -> JsonV {
    JsonV::Arr(Seq::new(items.len(), |i: int| JsonV::Str(items[i])))
}

/// Reading back a serialized string map yields the entries it was made
/// from.
pub proof fn lemma_str_map_round_trip(entries: Seq<(Seq<char>, Seq<char>)>)
    ensures
        ser_str_map(entries) matches JsonV::Obj(o) && all_str_values(o) && str_entries_of(o)
            =~= entries,
{
}

/// Reading back a serialized string array yields the elements it was
/// made from.
pub proof fn lemma_str_arr_round_trip(items: Seq<Seq<char>>)
    ensures
        ser_str_arr(items) matches JsonV::Arr(a) && all_str_items(a) && str_items_of(a) =~= items,
{
}

/// Reads a required string field.
pub fn get_str(pairs: &Vec<JsonPair>, key: &str) -> (r: Result<String, ApiError>)
    ensures
        match f_str(pairs_view(pairs@), key@) {
            Some(s) => r matches Ok(v) && v@ == s,
            None => r matches Err(e) && e == ApiError::MalformedResponse,
        },
{
    match lookup_key(pairs, key) {
        Some(Json::Str(s)) => Ok(s.clone()),
        _ => Err(ApiError::MalformedResponse),
    }
}

/// Reads an optional string field.
pub fn get_opt_str(pairs: &Vec<JsonPair>, key: &str) -> (r: Result<Option<String>, ApiError>)
    ensures
        match f_opt_str(pairs_view(pairs@), key@) {
            Some(s) => r matches Ok(v) && opt_str_view(v) == s,
            None => r matches Err(e) && e == ApiError::MalformedResponse,
        },
{
    match lookup_key(pairs, key) {
        None => Ok(None),
        Some(Json::Null) => Ok(None),
        Some(Json::Str(s)) => Ok(Some(s.clone())),
        _ => Err(ApiError::MalformedResponse),
    }
}

/// The view of an optional string.
pub open spec fn opt_str_view(v: Option<String>) -> Option<Seq<char>> {
    match v {
        Some(s) => Some(s@),
        None => None,
    }
}

/// Reads a required boolean field.
pub fn get_bool(pairs: &Vec<JsonPair>, key: &str) -> (r: Result<bool, ApiError>)
    ensures
        match f_bool(pairs_view(pairs@), key@) {
            Some(b) => r == Ok::<bool, ApiError>(b),
            None => r matches Err(e) && e == ApiError::MalformedResponse,
        },
{
    match lookup_key(pairs, key) {
        Some(Json::Bool(b)) => Ok(*b),
        _ => Err(ApiError::MalformedResponse),
    }
}

/// Reads an optional boolean field.
pub fn get_opt_bool(pairs: &Vec<JsonPair>, key: &str) -> (r: Result<Option<bool>, ApiError>)
    ensures
        match f_opt_bool(pairs_view(pairs@), key@) {
            Some(b) => r == Ok::<Option<bool>, ApiError>(b),
            None => r matches Err(e) && e == ApiError::MalformedResponse,
        },
{
    match lookup_key(pairs, key) {
        None => Ok(None),
        Some(Json::Null) => Ok(None),
        Some(Json::Bool(b)) => Ok(Some(*b)),
        _ => Err(ApiError::MalformedResponse),
    }
}

/// Reads a required signed 32-bit integer field.
pub fn get_i32(pairs: &Vec<JsonPair>, key: &str) -> (r: Result<i32, ApiError>)
    ensures
        match f_i32(pairs_view(pairs@), key@) {
            Some(v) => r == Ok::<i32, ApiError>(v),
            None => r matches Err(e) && e == ApiError::MalformedResponse,
        },
{
    match lookup_key(pairs, key) {
        Some(Json::Int(v)) => {
            let v = *v;
            if i32::MIN as i64 <= v && v <= i32::MAX as i64 {
                Ok(v as i32)
            } else {
                Err(ApiError::MalformedResponse)
            }
        },
        _ => Err(ApiError::MalformedResponse),
    }
}

/// Reads a required unsigned 32-bit integer field.
pub fn get_u32(pairs: &Vec<JsonPair>, key: &str) -> (r: Result<u32, ApiError>)
    ensures
        match f_u32(pairs_view(pairs@), key@) {
            Some(v) => r == Ok::<u32, ApiError>(v),
            None => r matches Err(e) && e == ApiError::MalformedResponse,
        },
{
    match lookup_key(pairs, key) {
        Some(Json::Int(v)) => {
            let v = *v;
            if 0 <= v && v <= u32::MAX as i64 {
                Ok(v as u32)
            } else {
                Err(ApiError::MalformedResponse)
            }
        },
        _ => Err(ApiError::MalformedResponse),
    }
}

/// Reads a required millisecond-count field into a duration value.
pub fn get_millis(pairs: &Vec<JsonPair>, key: &str) -> (r: Result<TrackDuration, ApiError>)
    ensures
        match f_millis(pairs_view(pairs@), key@) {
            Some(d) => r == Ok::<TrackDuration, ApiError>(d),
            None => r matches Err(e) && e == ApiError::MalformedResponse,
        },
{
    match lookup_key(pairs, key) {
        Some(Json::Int(v)) => {
            let v = *v;
            if v >= 0 {
                Ok(TrackDuration::from_millis(v as u64))
            } else {
                Err(ApiError::MalformedResponse)
            }
        },
        _ => Err(ApiError::MalformedResponse),
    }
}

/// Reads a required string-to-string mapping field.
pub fn get_str_map(pairs: &Vec<JsonPair>, key: &str) -> (r: Result<
    Vec<(String, String)>,
    ApiError,
>)
    ensures
        match f_str_map(pairs_view(pairs@), key@) {
            Some(m) => r matches Ok(v) && str_entries_view(v@) == m,
            None => r matches Err(e) && e == ApiError::MalformedResponse,
        },
{
    match lookup_key(pairs, key) {
        Some(Json::Obj(entries)) => {
            let ghost ev = pairs_view(entries@);
            proof {
                crate::json::lemma_pairs_view(entries@);
            }
            let mut out: Vec<(String, String)> = Vec::new();
            let n: usize = entries.len();
            for i in 0..n
                invariant
                    n == entries.len(),
                    ev == pairs_view(entries@),
                    lookup(pairs_view(pairs@), key@) == Some(JsonV::Obj(ev)),
                    ev.len() == n,
                    forall|j: int| 0 <= j < n ==> ev[j] == (entries[j].key@, entries[j].val@),
                    out@.len() == i,
                    forall|j: int| 0 <= j < i ==> #[trigger] ev[j].1 is Str,
                    forall|j: int|
                        0 <= j < i ==> (#[trigger] out@[j].0@, out@[j].1@) == (
                        ev[j].0,
                        ev[j].1->Str_0,
                        ),
            {
                match &entries[i].val {
                    Json::Str(s) => {
                        out.push((entries[i].key.clone(), s.clone()));
                    },
                    _ => {
                        proof {
                            assert(ev[i as int].1 == entries[i as int].val@);
                            assert(!(ev[i as int].1 is Str));
                            assert(!all_str_values(ev));
                        }
                        return Err(ApiError::MalformedResponse);
                    },
                }
            }
            proof {
                assert(str_entries_view(out@) =~= str_entries_of(ev));
            }
            Ok(out)
        },
        _ => Err(ApiError::MalformedResponse),
    }
}

/// Reads a string-array field, treating a missing member as the empty
/// list.
pub fn get_str_arr_default(pairs: &Vec<JsonPair>, key: &str) -> (r: Result<Vec<String>, ApiError>)
    ensures
        match f_str_arr_default(pairs_view(pairs@), key@) {
            Some(a) => r matches Ok(v) && str_seq_view(v@) == a,
            None => r matches Err(e) && e == ApiError::MalformedResponse,
        },
{
    match lookup_key(pairs, key) {
        None => {
            let out: Vec<String> = Vec::new();
            proof {
                assert(str_seq_view(out@) =~= Seq::<Seq<char>>::empty());
            }
            Ok(out)
        },
        Some(Json::Arr(items)) => {
            match collect_strings(items) {
                Ok(v) => Ok(v),
                Err(e) => Err(e),
            }
        },
        _ => Err(ApiError::MalformedResponse),
    }
}

/// Reads an optional string-array field.
pub fn get_opt_str_arr(pairs: &Vec<JsonPair>, key: &str) -> (r: Result<
    Option<Vec<String>>,
    ApiError,
>)
    ensures
        match f_opt_str_arr(pairs_view(pairs@), key@) {
            Some(a) => r matches Ok(v) && opt_str_seq_view(v) == a,
            None => r matches Err(e) && e == ApiError::MalformedResponse,
        },
{
    match lookup_key(pairs, key) {
        None => Ok(None),
        Some(Json::Null) => Ok(None),
        Some(Json::Arr(items)) => {
            match collect_strings(items) {
                Ok(v) => Ok(Some(v)),
                Err(e) => Err(e),
            }
        },
        _ => Err(ApiError::MalformedResponse),
    }
}

/// The view of an optional list of strings.
pub open spec fn opt_str_seq_view(v: Option<Vec<String>>) -> Option<Seq<Seq<char>>> {
    match v {
        Some(s) => Some(str_seq_view(s@)),
        None => None,
    }
}

/// Copies an all-string array out of its JSON shape.
fn collect_strings(items: &Vec<Json>) -> (r: Result<Vec<String>, ApiError>)
    ensures
        if all_str_items(crate::json::elems_view(items@)) {
            r matches Ok(v) && str_seq_view(v@) == str_items_of(crate::json::elems_view(items@))
        } else {
            r matches Err(e) && e == ApiError::MalformedResponse
        },
{
    let ghost iv = crate::json::elems_view(items@);
    proof {
        crate::json::lemma_elems_view(items@);
    }
    let mut out: Vec<String> = Vec::new();
    let n: usize = items.len();
    for i in 0..n
        invariant
            n == items.len(),
            iv == crate::json::elems_view(items@),
            iv.len() == n,
            forall|j: int| 0 <= j < n ==> iv[j] == items[j]@,
            out@.len() == i,
            forall|j: int| 0 <= j < i ==> #[trigger] iv[j] is Str,
            forall|j: int| 0 <= j < i ==> #[trigger] out@[j]@ == iv[j]->Str_0,
    {
        match &items[i] {
            Json::Str(s) => {
                out.push(s.clone());
            },
            _ => {
                proof {
                    assert(iv[i as int] == items[i as int]@);
                    assert(!(iv[i as int] is Str));
                    assert(!all_str_items(iv));
                }
                return Err(ApiError::MalformedResponse);
            },
        }
    }
    proof {
        assert(str_seq_view(out@) =~= str_items_of(iv));
    }
    Ok(out)
}

} // verus!

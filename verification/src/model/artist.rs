//! Artist objects.

use vstd::prelude::*;

verus! {

use crate::codec::{
    f_opt_str, f_str_map, get_opt_str, get_str_map, opt_str_view, str_entries_view, ObjV,
};
use crate::error::ApiError;
use crate::json::{lookup, pairs_view, Json, JsonPair, JsonV};
use crate::model::{f_type, get_type, type_of_str, type_str, Type};

/// Simplified artist object: the reference an album or a track carries
/// to each of its performing artists.
#[derive(Clone, Debug, PartialEq, Eq)]
pub struct SimplifiedArtist {
    pub external_urls: Vec<(String, String)>,
    pub href: Option<String>,
    pub id: Option<String>,
    pub name: String,
    pub _type: Type,
    pub uri: Option<String>,
}

/// The mathematical mirror of [`SimplifiedArtist`].
#[verifier::ext_equal]
pub struct SimplifiedArtistV {
    pub external_urls: Seq<(Seq<char>, Seq<char>)>,
    pub href: Option<Seq<char>>,
    pub id: Option<Seq<char>>,
    pub name: Seq<char>,
    pub _type: Type,
    pub uri: Option<Seq<char>>,
}

impl View for SimplifiedArtist {
    type V = SimplifiedArtistV;

    open spec fn view(&self) -> SimplifiedArtistV {
        SimplifiedArtistV {
            external_urls: str_entries_view(self.external_urls@),
            href: opt_str_view(self.href),
            id: opt_str_view(self.id),
            name: self.name@,
            _type: self._type,
            uri: opt_str_view(self.uri),
        }
    }
}

/// What a well-shaped simplified-artist object reads as: `None` when a
/// required member is missing or any member has the wrong type.
pub open spec fn spec_parse_artist(j: JsonV) -> Option<SimplifiedArtistV> {
    match j {
        JsonV::Obj(o) => if f_str_map(o, "external_urls"@) is Some && f_opt_str(o, "href"@)
            is Some && f_opt_str(o, "id"@) is Some && crate::codec::f_str(o, "name"@) is Some
            && f_type(o, "type"@) is Some && f_opt_str(o, "uri"@) is Some {
            Some(
                SimplifiedArtistV {
                    external_urls: f_str_map(o, "external_urls"@)->Some_0,
                    href: f_opt_str(o, "href"@)->Some_0,
                    id: f_opt_str(o, "id"@)->Some_0,
                    name: crate::codec::f_str(o, "name"@)->Some_0,
                    _type: f_type(o, "type"@)->Some_0,
                    uri: f_opt_str(o, "uri"@)->Some_0,
                },
            )
        } else {
            None
        },
        _ => None,
    }
}

/// The JSON shape of an optional string: `null` when absent.
pub open spec fn ser_opt_str(s: Option<Seq<char>>) -> JsonV {
    match s {
        Some(v) => JsonV::Str(v),
        None => JsonV::Null,
    }
}

/// The wire shape of a simplified artist, members in declaration order.
pub open spec fn spec_ser_artist(v: SimplifiedArtistV) -> JsonV {
    JsonV::Obj(
        seq![
            ("external_urls"@, crate::codec::ser_str_map(v.external_urls)),
            ("href"@, ser_opt_str(v.href)),
            ("id"@, ser_opt_str(v.id)),
            ("name"@, JsonV::Str(v.name)),
            ("type"@, JsonV::Str(type_str(v._type))),
            ("uri"@, ser_opt_str(v.uri)),
        ],
    )
}

/// A simplified artist survives the trip onto the wire and back.
pub proof fn lemma_artist_round_trip(v: SimplifiedArtistV)
    ensures
        spec_parse_artist(spec_ser_artist(v)) == Some(v),
{
    crate::model::lemma_key_facts();
    let o = spec_ser_artist(v)->Obj_0;
    crate::json::lemma_lookup_at(o, 0, "external_urls"@);
    crate::json::lemma_lookup_at(o, 1, "href"@);
    crate::json::lemma_lookup_at(o, 2, "id"@);
    crate::json::lemma_lookup_at(o, 3, "name"@);
    crate::json::lemma_lookup_at(o, 4, "type"@);
    crate::json::lemma_lookup_at(o, 5, "uri"@);
    crate::codec::lemma_str_map_round_trip(v.external_urls);
    crate::model::lemma_type_round_trip(v._type);
    assert(spec_parse_artist(spec_ser_artist(v))->Some_0 =~= v);
}

impl SimplifiedArtist {
    /// Reads a simplified artist from its JSON shape.
    pub fn from_json(j: &Json) -> (r: Result<SimplifiedArtist, ApiError>)
        ensures
            match spec_parse_artist(j@) {
                Some(v) => r matches Ok(a) && a@ == v,
                None => r matches Err(e) && e == ApiError::MalformedResponse,
            },
    {
        let pairs = match j {
            Json::Obj(p) => p,
            _ => {
                return Err(ApiError::MalformedResponse);
            },
        };
        let external_urls = match get_str_map(pairs, "external_urls") {
            Ok(v) => v,
            Err(e) => {
                return Err(e);
            },
        };
        let href = match get_opt_str(pairs, "href") {
            Ok(v) => v,
            Err(e) => {
                return Err(e);
            },
        };
        let id = match get_opt_str(pairs, "id") {
            Ok(v) => v,
            Err(e) => {
                return Err(e);
            },
        };
        let name = match crate::codec::get_str(pairs, "name") {
            Ok(v) => v,
            Err(e) => {
                return Err(e);
            },
        };
        let _type = match get_type(pairs, "type") {
            Ok(v) => v,
            Err(e) => {
                return Err(e);
            },
        };
        let uri = match get_opt_str(pairs, "uri") {
            Ok(v) => v,
            Err(e) => {
                return Err(e);
            },
        };
        Ok(SimplifiedArtist { external_urls, href, id, name, _type, uri })
    }

    /// Writes `self` in its JSON shape, members in declaration order.
    pub fn to_json(&self) -> (r: Json)
        ensures
            r@ == spec_ser_artist(self@),
    {
        let mut pairs: Vec<JsonPair> = Vec::new();
        pairs.push(JsonPair { key: "external_urls".to_owned(), val: str_map_json(&self.external_urls) });
        pairs.push(JsonPair { key: "href".to_owned(), val: opt_str_json(&self.href) });
        pairs.push(JsonPair { key: "id".to_owned(), val: opt_str_json(&self.id) });
        pairs.push(JsonPair { key: "name".to_owned(), val: Json::Str(self.name.clone()) });
        pairs.push(JsonPair { key: "type".to_owned(), val: Json::Str(self._type.to_str()) });
        pairs.push(JsonPair { key: "uri".to_owned(), val: opt_str_json(&self.uri) });
        proof {
            crate::json::lemma_pairs_view(pairs@);
            assert(pairs_view(pairs@) =~= spec_ser_artist(self@)->Obj_0);
        }
        Json::Obj(pairs)
    }
}

/// Whether every element of an array is a well-shaped artist.
pub open spec fn all_artists(items: Seq<JsonV>) -> bool {
    forall|i: int| 0 <= i < items.len() ==> spec_parse_artist(#[trigger] items[i]) is Some
}

/// The artists an all-artist array carries.
pub open spec fn artists_of(items: Seq<JsonV>) -> Seq<SimplifiedArtistV> {
    Seq::new(items.len(), |i: int| spec_parse_artist(items[i])->Some_0)
}

/// A required array-of-artists field.
pub open spec fn f_artists(o: ObjV, key: Seq<char>) -> Option<Seq<SimplifiedArtistV>> {
    match lookup(o, key) {
        Some(JsonV::Arr(items)) => if all_artists(items) {
            Some(artists_of(items))
        } else {
            None
        },
        _ => None,
    }
}

/// The view of a list of artists.
pub open spec fn artists_view(s: Seq<SimplifiedArtist>) -> Seq<SimplifiedArtistV> {
    Seq::new(s.len(), |i: int| s[i]@)
}

/// The wire shape of a list of artists.
pub open spec fn ser_artists(s: Seq<SimplifiedArtistV>) -> JsonV {
    JsonV::Arr(Seq::new(s.len(), |i: int| spec_ser_artist(s[i])))
}

/// A list of artists survives the trip onto the wire and back.
pub proof fn lemma_artists_round_trip(s: Seq<SimplifiedArtistV>)
    ensures
        ser_artists(s) matches JsonV::Arr(a) && all_artists(a) && artists_of(a) =~= s,
{
    let a = ser_artists(s)->Arr_0;
    assert forall|i: int| 0 <= i < a.len() implies spec_parse_artist(#[trigger] a[i]) is Some by {
        lemma_artist_round_trip(s[i]);
    }
    assert forall|i: int| 0 <= i < a.len() implies artists_of(a)[i] == s[i] by {
        lemma_artist_round_trip(s[i]);
    }
}

/// Reads a required array-of-artists field.
pub fn get_artists(pairs: &Vec<JsonPair>, key: &str) -> (r: Result<Vec<SimplifiedArtist>, ApiError>)
    ensures
        match f_artists(pairs_view(pairs@), key@) {
            Some(vv) => r matches Ok(v) && artists_view(v@) == vv,
            None => r matches Err(e) && e == ApiError::MalformedResponse,
        },
{
    match crate::json::lookup_key(pairs, key) {
        Some(Json::Arr(items)) => {
            let ghost iv = crate::json::elems_view(items@);
            proof {
                crate::json::lemma_elems_view(items@);
            }
            let mut out: Vec<SimplifiedArtist> = Vec::new();
            let n: usize = items.len();
            for i in 0..n
                invariant
                    n == items.len(),
                    iv == crate::json::elems_view(items@),
                    iv.len() == n,
                    lookup(pairs_view(pairs@), key@) == Some(JsonV::Arr(iv)),
                    forall|j: int| 0 <= j < n ==> iv[j] == items[j]@,
                    out@.len() == i,
                    forall|j: int| 0 <= j < i ==> spec_parse_artist(#[trigger] iv[j]) is Some,
                    forall|j: int|
                        0 <= j < i ==> #[trigger] out@[j]@ == spec_parse_artist(iv[j])->Some_0,
            {
                match SimplifiedArtist::from_json(&items[i]) {
                    Ok(a) => {
                        out.push(a);
                    },
                    Err(e) => {
                        proof {
                            assert(spec_parse_artist(iv[i as int]) is None);
                            assert(!all_artists(iv));
                        }
                        return Err(e);
                    },
                }
            }
            proof {
                assert(artists_view(out@) =~= artists_of(iv));
            }
            Ok(out)
        },
        _ => Err(ApiError::MalformedResponse),
    }
}

/// Writes a list of artists in its JSON shape.
pub fn artists_json(artists: &Vec<SimplifiedArtist>) -> (r: Json)
    ensures
        r@ == ser_artists(artists_view(artists@)),
{
    let mut out: Vec<Json> = Vec::new();
    let n: usize = artists.len();
    for i in 0..n
        invariant
            n == artists.len(),
            out@.len() == i,
            forall|j: int| 0 <= j < i ==> #[trigger] out@[j]@ == spec_ser_artist(artists@[j]@),
    {
        out.push(artists[i].to_json());
    }
    proof {
        crate::json::lemma_elems_view(out@);
        assert(crate::json::elems_view(out@) =~= ser_artists(artists_view(artists@))->Arr_0);
    }
    Json::Arr(out)
}

/// Writes a list of strings in its JSON shape.
pub fn str_arr_json(items: &Vec<String>) -> (r: Json)
    ensures
        r@ == crate::codec::ser_str_arr(crate::codec::str_seq_view(items@)),
{
    let mut out: Vec<Json> = Vec::new();
    let n: usize = items.len();
    for i in 0..n
        invariant
            n == items.len(),
            out@.len() == i,
            forall|j: int| 0 <= j < i ==> #[trigger] out@[j]@ == JsonV::Str(items@[j]@),
    {
        out.push(Json::Str(items[i].clone()));
    }
    proof {
        crate::json::lemma_elems_view(out@);
        assert(crate::json::elems_view(out@) =~= crate::codec::ser_str_arr(
            crate::codec::str_seq_view(items@),
        )->Arr_0);
    }
    Json::Arr(out)
}

/// Writes an optional string in its JSON shape, `null` when absent.
pub fn opt_str_json(s: &Option<String>) -> (r: Json)
    ensures
        r@ == ser_opt_str(opt_str_view(*s)),
{
    match s {
        Some(v) => Json::Str(v.clone()),
        None => Json::Null,
    }
}

/// Writes a string-to-string mapping in its JSON shape.
pub fn str_map_json(entries: &Vec<(String, String)>) -> (r: Json)
    ensures
        r@ == crate::codec::ser_str_map(str_entries_view(entries@)),
{
    let mut pairs: Vec<JsonPair> = Vec::new();
    let n: usize = entries.len();
    for i in 0..n
        invariant
            n == entries.len(),
            pairs@.len() == i,
            forall|j: int|
                0 <= j < i ==> #[trigger] pairs@[j] == (JsonPair {
                    key: entries@[j].0,
                    val: Json::Str(entries@[j].1),
                }),
    {
        pairs.push(JsonPair { key: entries[i].0.clone(), val: Json::Str(entries[i].1.clone()) });
    }
    proof {
        crate::json::lemma_pairs_view(pairs@);
        assert(pairs_view(pairs@) =~= crate::codec::ser_str_map(str_entries_view(entries@))->Obj_0);
    }
    Json::Obj(pairs)
}

} // verus!

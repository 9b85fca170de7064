//! Album objects.

use vstd::prelude::*;

verus! {

use crate::codec::{
    f_opt_str, f_str, f_str_arr_default, f_str_map, get_opt_str, get_str, get_str_arr_default,
    get_str_map, opt_str_view, ser_str_arr, ser_str_map, str_entries_view, str_seq_view, ObjV,
};
use crate::error::ApiError;
use crate::json::{
    lemma_lookup_concat, lemma_pairs_view, lookup,
    pairs_view, Json, JsonPair, JsonV,
};
use crate::model::artist::{
    artists_json, artists_view, f_artists, get_artists, lemma_artists_round_trip, opt_str_json,
    ser_artists, ser_opt_str, str_map_json, SimplifiedArtist, SimplifiedArtistV,
};
use crate::model::{f_type, get_type, lemma_key_facts, lemma_type_round_trip, type_str, Type};

/// Simplified album object: the reference a track carries to its
/// owning album.
#[derive(Clone, Debug, PartialEq, Eq)]
pub struct SimplifiedAlbum {
    pub album_type: Option<String>,
    pub artists: Vec<SimplifiedArtist>,
    pub available_markets: Vec<String>,
    pub external_urls: Vec<(String, String)>,
    pub href: Option<String>,
    pub id: Option<String>,
    pub name: String,
    pub release_date: Option<String>,
    pub _type: Type,
    pub uri: Option<String>,
}

/// The mathematical mirror of [`SimplifiedAlbum`].
#[verifier::ext_equal]
pub struct SimplifiedAlbumV {
    pub album_type: Option<Seq<char>>,
    pub artists: Seq<SimplifiedArtistV>,
    pub available_markets: Seq<Seq<char>>,
    pub external_urls: Seq<(Seq<char>, Seq<char>)>,
    pub href: Option<Seq<char>>,
    pub id: Option<Seq<char>>,
    pub name: Seq<char>,
    pub release_date: Option<Seq<char>>,
    pub _type: Type,
    pub uri: Option<Seq<char>>,
}

impl View for SimplifiedAlbum {
    type V = SimplifiedAlbumV;

    open spec fn view(&self) -> SimplifiedAlbumV {
        SimplifiedAlbumV {
            album_type: opt_str_view(self.album_type),
            artists: artists_view(self.artists@),
            available_markets: str_seq_view(self.available_markets@),
            external_urls: str_entries_view(self.external_urls@),
            href: opt_str_view(self.href),
            id: opt_str_view(self.id),
            name: self.name@,
            release_date: opt_str_view(self.release_date),
            _type: self._type,
            uri: opt_str_view(self.uri),
        }
    }
}

/// What a well-shaped simplified-album object reads as.  A missing
/// market list reads as the empty list; every other member follows the
/// documented schema.
pub open spec fn spec_parse_album(j: JsonV) -> Option<SimplifiedAlbumV> {
    match j {
        JsonV::Obj(o) => if f_opt_str(o, "album_type"@) is Some && f_artists(o, "artists"@)
            is Some && f_str_arr_default(o, "available_markets"@) is Some && f_str_map(
            o,
            "external_urls"@,
        ) is Some && f_opt_str(o, "href"@) is Some && f_opt_str(o, "id"@) is Some && f_str(
            o,
            "name"@,
        ) is Some && f_opt_str(o, "release_date"@) is Some && f_type(o, "type"@) is Some
            && f_opt_str(o, "uri"@) is Some {
            Some(
                SimplifiedAlbumV {
                    album_type: f_opt_str(o, "album_type"@)->Some_0,
                    artists: f_artists(o, "artists"@)->Some_0,
                    available_markets: f_str_arr_default(o, "available_markets"@)->Some_0,
                    external_urls: f_str_map(o, "external_urls"@)->Some_0,
                    href: f_opt_str(o, "href"@)->Some_0,
                    id: f_opt_str(o, "id"@)->Some_0,
                    name: f_str(o, "name"@)->Some_0,
                    release_date: f_opt_str(o, "release_date"@)->Some_0,
                    _type: f_type(o, "type"@)->Some_0,
                    uri: f_opt_str(o, "uri"@)->Some_0,
                },
            )
        } else {
            None
        },
        _ => None,
    }
}

/// The leading members of a serialized album.
pub open spec fn ser_album_head(v: SimplifiedAlbumV) -> ObjV {
    seq![("album_type"@, ser_opt_str(v.album_type)), ("artists"@, ser_artists(v.artists))]
}

/// The market-list member, skipped when the list is empty.
pub open spec fn ser_album_markets(v: SimplifiedAlbumV) -> ObjV {
    if v.available_markets.len() == 0 {
        Seq::empty()
    } else {
        seq![("available_markets"@, ser_str_arr(v.available_markets))]
    }
}

/// The trailing members of a serialized album.
pub open spec fn ser_album_tail(v: SimplifiedAlbumV) -> ObjV {
    seq![
        ("external_urls"@, ser_str_map(v.external_urls)),
        ("href"@, ser_opt_str(v.href)),
        ("id"@, ser_opt_str(v.id)),
        ("name"@, JsonV::Str(v.name)),
        ("release_date"@, ser_opt_str(v.release_date)),
        ("type"@, JsonV::Str(type_str(v._type))),
        ("uri"@, ser_opt_str(v.uri)),
    ]
}

/// The wire shape of a simplified album, members in declaration order,
/// with an empty market list left out.
pub open spec fn spec_ser_album(v: SimplifiedAlbumV) -> JsonV {
    JsonV::Obj(ser_album_head(v) + ser_album_markets(v) + ser_album_tail(v))
}

/// A simplified album survives the trip onto the wire and back.
pub proof fn lemma_album_round_trip(v: SimplifiedAlbumV)
    ensures
        spec_parse_album(spec_ser_album(v)) == Some(v),
{
    lemma_key_facts();
    reveal_with_fuel(lookup, 12);
    let h = ser_album_head(v);
    let m = ser_album_markets(v);
    let t = ser_album_tail(v);
    let o = h + m + t;
    assert forall|key: Seq<char>| true implies lookup(o, key) == (if lookup(h, key) is Some {
        lookup(h, key)
    } else if lookup(m, key) is Some {
        lookup(m, key)
    } else {
        lookup(t, key)
    }) by {
        lemma_lookup_concat(h + m, t, key);
        lemma_lookup_concat(h, m, key);
    }
    if v.available_markets.len() != 0 {
        crate::codec::lemma_str_arr_round_trip(v.available_markets);
    }
    lemma_artists_round_trip(v.artists);
    crate::codec::lemma_str_map_round_trip(v.external_urls);
    lemma_type_round_trip(v._type);
    assert(spec_parse_album(spec_ser_album(v))->Some_0 =~= v);
}

impl SimplifiedAlbum {
    /// Reads a simplified album from its JSON shape.
    pub fn from_json(j: &Json) -> (r: Result<SimplifiedAlbum, ApiError>)
        ensures
            match spec_parse_album(j@) {
                Some(v) => r matches Ok(a) && a@ == v,
                None => r matches Err(e) && e == ApiError::MalformedResponse,
            },
    {
        let pairs = match j {
            Json::Obj(p) => p,
            _ => {
                return Err(ApiError::MalformedResponse);
            },
        };
        let album_type = match get_opt_str(pairs, "album_type") {
            Ok(v) => v,
            Err(e) => {
                return Err(e);
            },
        };
        let artists = match get_artists(pairs, "artists") {
            Ok(v) => v,
            Err(e) => {
                return Err(e);
            },
        };
        let available_markets = match get_str_arr_default(pairs, "available_markets") {
            Ok(v) => v,
            Err(e) => {
                return Err(e);
            },
        };
        let external_urls = match get_str_map(pairs, "external_urls") {
            Ok(v) => v,
            Err(e) => {
                return Err(e);
            },
        };
        let href = match get_opt_str(pairs, "href") {
            Ok(v) => v,
            Err(e) => {
                return Err(e);
            },
        };
        let id = match get_opt_str(pairs, "id") {
            Ok(v) => v,
            Err(e) => {
                return Err(e);
            },
        };
        let name = match get_str(pairs, "name") {
            Ok(v) => v,
            Err(e) => {
                return Err(e);
            },
        };
        let release_date = match get_opt_str(pairs, "release_date") {
            Ok(v) => v,
            Err(e) => {
                return Err(e);
            },
        };
        let _type = match get_type(pairs, "type") {
            Ok(v) => v,
            Err(e) => {
                return Err(e);
            },
        };
        let uri = match get_opt_str(pairs, "uri") {
            Ok(v) => v,
            Err(e) => {
                return Err(e);
            },
        };
        Ok(
            SimplifiedAlbum {
                album_type,
                artists,
                available_markets,
                external_urls,
                href,
                id,
                name,
                release_date,
                _type,
                uri,
            },
        )
    }

    /// Writes `self` in its JSON shape, members in declaration order,
    /// leaving an empty market list out.
    pub fn to_json(&self) -> (r: Json)
        ensures
            r@ == spec_ser_album(self@),
    {
        let mut pairs: Vec<JsonPair> = Vec::new();
        pairs.push(JsonPair { key: "album_type".to_owned(), val: opt_str_json(&self.album_type) });
        pairs.push(JsonPair { key: "artists".to_owned(), val: artists_json(&self.artists) });
        if self.available_markets.len() > 0 {
            pairs.push(
                JsonPair {
                    key: "available_markets".to_owned(),
                    val: crate::model::artist::str_arr_json(&self.available_markets),
                },
            );
        }
        pairs.push(
            JsonPair { key: "external_urls".to_owned(), val: str_map_json(&self.external_urls) },
        );
        pairs.push(JsonPair { key: "href".to_owned(), val: opt_str_json(&self.href) });
        pairs.push(JsonPair { key: "id".to_owned(), val: opt_str_json(&self.id) });
        pairs.push(JsonPair { key: "name".to_owned(), val: Json::Str(self.name.clone()) });
        pairs.push(
            JsonPair { key: "release_date".to_owned(), val: opt_str_json(&self.release_date) },
        );
        pairs.push(JsonPair { key: "type".to_owned(), val: Json::Str(self._type.to_str()) });
        pairs.push(JsonPair { key: "uri".to_owned(), val: opt_str_json(&self.uri) });
        proof {
            lemma_pairs_view(pairs@);
            assert(pairs_view(pairs@) =~= spec_ser_album(self@)->Obj_0);
        }
        Json::Obj(pairs)
    }
}

} // verus!

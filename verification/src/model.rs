//! The object model: plain records mirroring the API's JSON resources.

use vstd::prelude::*;

pub mod album;
pub mod artist;
pub mod track;

verus! {

use crate::codec::{f_str, get_str, ObjV};
use crate::error::ApiError;
use crate::json::{Json, JsonPair, JsonV};
use crate::text::str_eq;

/// The `"type"` tag every addressable entity carries on the wire.
#[derive(Clone, Copy, Debug, PartialEq, Eq, Hash, Structural)]
pub enum Type {
    Artist,
    Album,
    Track,
    Playlist,
    User,
    Show,
    Episode,
}

/// The wire spelling of a type tag.
pub open spec fn type_str(t: Type) -> Seq<char> {
    match t {
        Type::Artist => "artist"@,
        Type::Album => "album"@,
        Type::Track => "track"@,
        Type::Playlist => "playlist"@,
        Type::User => "user"@,
        Type::Show => "show"@,
        Type::Episode => "episode"@,
    }
}

/// The type tag a wire spelling denotes, if any.
pub open spec fn type_of_str(s: Seq<char>) -> Option<Type> {
    if s == "artist"@ {
        Some(Type::Artist)
    } else if s == "album"@ {
        Some(Type::Album)
    } else if s == "track"@ {
        Some(Type::Track)
    } else if s == "playlist"@ {
        Some(Type::Playlist)
    } else if s == "user"@ {
        Some(Type::User)
    } else if s == "show"@ {
        Some(Type::Show)
    } else if s == "episode"@ {
        Some(Type::Episode)
    } else {
        None
    }
}

/// Every type tag survives the trip through its wire spelling.
pub proof fn lemma_type_round_trip(t: Type)
    ensures
        type_of_str(type_str(t)) == Some(t),
{
    reveal_strlit("artist");
    reveal_strlit("album");
    reveal_strlit("track");
    reveal_strlit("playlist");
    reveal_strlit("user");
    reveal_strlit("show");
    reveal_strlit("episode");
    assert("artist"@.len() == 6);
    assert("album"@.len() == 5);
    assert("track"@.len() == 5);
    assert("playlist"@.len() == 8);
    assert("user"@.len() == 4);
    assert("show"@.len() == 4);
    assert("episode"@.len() == 7);
    assert("album"@[0] == 'a' && "track"@[0] == 't');
    assert("user"@[0] == 'u' && "show"@[0] == 's');
}

/// Length and spelling facts about every member key the wire format
/// uses, so that key lookups can be resolved against concrete objects.
pub proof fn lemma_key_facts()
    ensures
        "album"@.len() == 5,
        "album_type"@.len() == 10,
        "added_at"@.len() == 8,
        "artists"@.len() == 7,
        "available_markets"@.len() == 17,
        "disc_number"@.len() == 11,
        "duration_ms"@.len() == 11,
        "explicit"@.len() == 8,
        "external_ids"@.len() == 12,
        "external_urls"@.len() == 13,
        "href"@.len() == 4,
        "id"@.len() == 2,
        "is_local"@.len() == 8,
        "is_playable"@.len() == 11,
        "items"@.len() == 5,
        "limit"@.len() == 5,
        "linked_from"@.len() == 11,
        "name"@.len() == 4,
        "next"@.len() == 4,
        "offset"@.len() == 6,
        "popularity"@.len() == 10,
        "positions"@.len() == 9,
        "preview_url"@.len() == 11,
        "previous"@.len() == 8,
        "reason"@.len() == 6,
        "release_date"@.len() == 12,
        "restrictions"@.len() == 12,
        "total"@.len() == 5,
        "track"@.len() == 5,
        "track_number"@.len() == 12,
        "tracks"@.len() == 6,
        "type"@.len() == 4,
        "uri"@.len() == 3,
        "disc_number"@[0] == 'd',
        "duration_ms"@[0] == 'd',
        "is_playable"@[0] == 'i',
        "linked_from"@[0] == 'l',
        "preview_url"@[0] == 'p',
        "disc_number"@[1] == 'i',
        "duration_ms"@[1] == 'u',
        "external_ids"@[0] == 'e',
        "release_date"@[0] == 'r',
        "restrictions"@[0] == 'r',
        "track_number"@[0] == 't',
        "release_date"@[2] == 'l',
        "restrictions"@[2] == 's',
        "href"@[0] == 'h',
        "name"@[0] == 'n',
        "next"@[0] == 'n',
        "type"@[0] == 't',
        "name"@[1] == 'a',
        "next"@[1] == 'e',
        "added_at"@[0] == 'a',
        "explicit"@[0] == 'e',
        "is_local"@[0] == 'i',
        "previous"@[0] == 'p',
        "album_type"@[0] == 'a',
        "popularity"@[0] == 'p',
        "album"@[0] == 'a',
        "items"@[0] == 'i',
        "limit"@[0] == 'l',
        "total"@[0] == 't',
        "track"@[0] == 't',
        "total"@[1] == 'o',
        "track"@[1] == 'r',
        "offset"@[0] == 'o',
        "reason"@[0] == 'r',
        "tracks"@[0] == 't',
{
    reveal_strlit("album");
    reveal_strlit("album_type");
    reveal_strlit("added_at");
    reveal_strlit("artists");
    reveal_strlit("available_markets");
    reveal_strlit("disc_number");
    reveal_strlit("duration_ms");
    reveal_strlit("explicit");
    reveal_strlit("external_ids");
    reveal_strlit("external_urls");
    reveal_strlit("href");
    reveal_strlit("id");
    reveal_strlit("is_local");
    reveal_strlit("is_playable");
    reveal_strlit("items");
    reveal_strlit("limit");
    reveal_strlit("linked_from");
    reveal_strlit("name");
    reveal_strlit("next");
    reveal_strlit("offset");
    reveal_strlit("popularity");
    reveal_strlit("positions");
    reveal_strlit("preview_url");
    reveal_strlit("previous");
    reveal_strlit("reason");
    reveal_strlit("release_date");
    reveal_strlit("restrictions");
    reveal_strlit("total");
    reveal_strlit("track");
    reveal_strlit("track_number");
    reveal_strlit("tracks");
    reveal_strlit("type");
    reveal_strlit("uri");
}

impl Type {
    /// The wire spelling of `self`.
    pub fn to_str(&self) -> (r: String)
        ensures
            r@ == type_str(*self),
    {
        match self {
            Type::Artist => "artist".to_owned(),
            Type::Album => "album".to_owned(),
            Type::Track => "track".to_owned(),
            Type::Playlist => "playlist".to_owned(),
            Type::User => "user".to_owned(),
            Type::Show => "show".to_owned(),
            Type::Episode => "episode".to_owned(),
        }
    }

    /// Reads a type tag from its wire spelling.
    pub fn parse(s: &str) -> (r: Option<Type>)
        ensures
            r == type_of_str(s@),
    {
        if str_eq(s, "artist") {
            Some(Type::Artist)
        } else if str_eq(s, "album") {
            Some(Type::Album)
        } else if str_eq(s, "track") {
            Some(Type::Track)
        } else if str_eq(s, "playlist") {
            Some(Type::Playlist)
        } else if str_eq(s, "user") {
            Some(Type::User)
        } else if str_eq(s, "show") {
            Some(Type::Show)
        } else if str_eq(s, "episode") {
            Some(Type::Episode)
        } else {
            None
        }
    }
}

/// A required `"type"` tag field.
pub open spec fn f_type(o: ObjV, key: Seq<char>) -> Option<Type> {
    match f_str(o, key) {
        Some(s) => type_of_str(s),
        None => None,
    }
}

/// Reads a required `"type"` tag field.
pub fn get_type(pairs: &Vec<JsonPair>, key: &str) -> (r: Result<Type, ApiError>)
    ensures
        match f_type(crate::json::pairs_view(pairs@), key@) {
            Some(t) => r == Ok::<Type, ApiError>(t),
            None => r matches Err(e) && e == ApiError::MalformedResponse,
        },
{
    match get_str(pairs, key) {
        Ok(s) => match Type::parse(s.as_str()) {
            Some(t) => Ok(t),
            None => Err(ApiError::MalformedResponse),
        },
        Err(e) => Err(e),
    }
}

/// An opaque track identifier, scoped to tracks.
#[derive(Clone, Debug, PartialEq, Eq, Hash)]
pub struct TrackId {
    pub id: String,
}

impl TrackId {
    /// Wraps an identifier string.
    pub fn new(id: String) -> (r: TrackId)
        ensures
            r.id@ == id@,
    {
        TrackId { id }
    }
}

/// A market restriction attached to a relinked resource.
#[derive(Clone, Debug, PartialEq, Eq)]
pub struct Restriction {
    pub reason: String,
}

/// The mathematical mirror of [`Restriction`].
#[verifier::ext_equal]
pub struct RestrictionV {
    pub reason: Seq<char>,
}

impl View for Restriction {
    type V = RestrictionV;

    open spec fn view(&self) -> RestrictionV {
        RestrictionV { reason: self.reason@ }
    }
}

/// What a well-shaped restriction object reads as.
pub open spec fn spec_parse_restriction(j: JsonV) -> Option<RestrictionV> {
    match j {
        JsonV::Obj(o) => match f_str(o, "reason"@) {
            Some(s) => Some(RestrictionV { reason: s }),
            None => None,
        },
        _ => None,
    }
}

/// The wire shape of a restriction.
pub open spec fn spec_ser_restriction(v: RestrictionV) -> JsonV {
    JsonV::Obj(seq![("reason"@, JsonV::Str(v.reason))])
}

/// A restriction survives the trip onto the wire and back.
pub proof fn lemma_restriction_round_trip(v: RestrictionV)
    ensures
        spec_parse_restriction(spec_ser_restriction(v)) == Some(v),
{
    let o = spec_ser_restriction(v)->Obj_0;
    crate::json::lemma_lookup_at(o, 0, "reason"@);
}

impl Restriction {
    /// Reads a restriction from its JSON shape.
    pub fn from_json(j: &Json) -> (r: Result<Restriction, ApiError>)
        ensures
            match spec_parse_restriction(j@) {
                Some(v) => r matches Ok(x) && x@ == v,
                None => r matches Err(e) && e == ApiError::MalformedResponse,
            },
    {
        match j {
            Json::Obj(pairs) => match get_str(pairs, "reason") {
                Ok(s) => Ok(Restriction { reason: s }),
                Err(e) => Err(e),
            },
            _ => Err(ApiError::MalformedResponse),
        }
    }

    /// Writes `self` in its JSON shape.
    pub fn to_json(&self) -> (r: Json)
        ensures
            r@ == spec_ser_restriction(self@),
    {
        let mut pairs: Vec<JsonPair> = Vec::new();
        pairs.push(JsonPair { key: "reason".to_owned(), val: Json::Str(self.reason.clone()) });
        proof {
            crate::json::lemma_pairs_view(pairs@);
            assert(crate::json::pairs_view(pairs@) =~= spec_ser_restriction(self@)->Obj_0);
        }
        Json::Obj(pairs)
    }
}

} // verus!

//! All kinds of track objects.

use vstd::prelude::*;

verus! {

use crate::codec::{
    f_bool, f_i32, f_millis, f_opt_bool, f_opt_str, f_str, f_str_arr_default, f_str_map, f_u32,
    get_bool, get_i32, get_millis, get_opt_bool, get_opt_str, get_str, get_str_arr_default,
    get_str_map, get_u32, opt_str_view, ser_str_arr, ser_str_map, str_entries_view, str_seq_view,
    ObjV,
};
use crate::duration::TrackDuration;
use crate::error::ApiError;
use crate::json::{
    lemma_lookup_concat, lemma_pairs_view, lookup, lookup_key, pairs_view, Json, JsonPair, JsonV,
};
use crate::model::album::{spec_parse_album, spec_ser_album, SimplifiedAlbum, SimplifiedAlbumV};
use crate::model::artist::{
    artists_json, artists_view, f_artists, get_artists, lemma_artists_round_trip, opt_str_json,
    ser_artists, ser_opt_str, str_arr_json, str_map_json, SimplifiedArtist, SimplifiedArtistV,
};
use crate::model::{
    f_type, get_type, lemma_key_facts, lemma_type_round_trip, spec_parse_restriction,
    spec_ser_restriction, type_str, Restriction, RestrictionV, TrackId, Type,
};

/// Track link object: the relinking pointer left behind when a track
/// is unavailable in the requester's market and redirected to an
/// equivalent one.
#[derive(Clone, Debug, PartialEq, Eq)]
pub struct TrackLink {
    pub external_urls: Vec<(String, String)>,
    pub href: String,
    pub id: String,
    pub _type: Type,
    pub uri: String,
}

/// The mathematical mirror of [`TrackLink`].
#[verifier::ext_equal]
pub struct TrackLinkV {
    pub external_urls: Seq<(Seq<char>, Seq<char>)>,
    pub href: Seq<char>,
    pub id: Seq<char>,
    pub _type: Type,
    pub uri: Seq<char>,
}

impl View for TrackLink {
    type V = TrackLinkV;

    open spec fn view(&self) -> TrackLinkV {
        TrackLinkV {
            external_urls: str_entries_view(self.external_urls@),
            href: self.href@,
            id: self.id@,
            _type: self._type,
            uri: self.uri@,
        }
    }
}

/// What a well-shaped track-link object reads as.
pub open spec fn spec_parse_link(j: JsonV) -> Option<TrackLinkV> {
    match j {
        JsonV::Obj(o) => if f_str_map(o, "external_urls"@) is Some && f_str(o, "href"@) is Some
            && f_str(o, "id"@) is Some && f_type(o, "type"@) is Some && f_str(o, "uri"@)
            is Some {
            Some(
                TrackLinkV {
                    external_urls: f_str_map(o, "external_urls"@)->Some_0,
                    href: f_str(o, "href"@)->Some_0,
                    id: f_str(o, "id"@)->Some_0,
                    _type: f_type(o, "type"@)->Some_0,
                    uri: f_str(o, "uri"@)->Some_0,
                },
            )
        } else {
            None
        },
        _ => None,
    }
}

/// The wire shape of a track link, members in declaration order.
pub open spec fn spec_ser_link(v: TrackLinkV) -> JsonV {
    JsonV::Obj(
        seq![
            ("external_urls"@, ser_str_map(v.external_urls)),
            ("href"@, JsonV::Str(v.href)),
            ("id"@, JsonV::Str(v.id)),
            ("type"@, JsonV::Str(type_str(v._type))),
            ("uri"@, JsonV::Str(v.uri)),
        ],
    )
}

/// A track link survives the trip onto the wire and back.
pub proof fn lemma_link_round_trip(v: TrackLinkV)
    ensures
        spec_parse_link(spec_ser_link(v)) == Some(v),
{
    lemma_key_facts();
    reveal_with_fuel(lookup, 8);
    crate::codec::lemma_str_map_round_trip(v.external_urls);
    lemma_type_round_trip(v._type);
    assert(spec_parse_link(spec_ser_link(v))->Some_0 =~= v);
}

impl TrackLink {
    /// Reads a track link from its JSON shape.
    pub fn from_json(j: &Json) -> (r: Result<TrackLink, ApiError>)
        ensures
            match spec_parse_link(j@) {
                Some(v) => r matches Ok(l) && l@ == v,
                None => r matches Err(e) && e == ApiError::MalformedResponse,
            },
    {
        let pairs = match j {
            Json::Obj(p) => p,
            _ => {
                return Err(ApiError::MalformedResponse);
            },
        };
        let external_urls = match get_str_map(pairs, "external_urls") {
            Ok(v) => v,
            Err(e) => {
                return Err(e);
            },
        };
        let href = match get_str(pairs, "href") {
            Ok(v) => v,
            Err(e) => {
                return Err(e);
            },
        };
        let id = match get_str(pairs, "id") {
            Ok(v) => v,
            Err(e) => {
                return Err(e);
            },
        };
        let _type = match get_type(pairs, "type") {
            Ok(v) => v,
            Err(e) => {
                return Err(e);
            },
        };
        let uri = match get_str(pairs, "uri") {
            Ok(v) => v,
            Err(e) => {
                return Err(e);
            },
        };
        Ok(TrackLink { external_urls, href, id, _type, uri })
    }

    /// Writes `self` in its JSON shape, members in declaration order.
    pub fn to_json(&self) -> (r: Json)
        ensures
            r@ == spec_ser_link(self@),
    {
        let mut pairs: Vec<JsonPair> = Vec::new();
        pairs.push(
            JsonPair { key: "external_urls".to_owned(), val: str_map_json(&self.external_urls) },
        );
        pairs.push(JsonPair { key: "href".to_owned(), val: Json::Str(self.href.clone()) });
        pairs.push(JsonPair { key: "id".to_owned(), val: Json::Str(self.id.clone()) });
        pairs.push(JsonPair { key: "type".to_owned(), val: Json::Str(self._type.to_str()) });
        pairs.push(JsonPair { key: "uri".to_owned(), val: Json::Str(self.uri.clone()) });
        proof {
            lemma_pairs_view(pairs@);
            assert(pairs_view(pairs@) =~= spec_ser_link(self@)->Obj_0);
        }
        Json::Obj(pairs)
    }
}

/// The view of an optional track link.
pub open spec fn opt_link_view(v: Option<TrackLink>) -> Option<TrackLinkV> {
    match v {
        Some(l) => Some(l@),
        None => None,
    }
}

/// An optional track-link field: missing and `null` read as `None`.
pub open spec fn f_opt_link(o: ObjV, key: Seq<char>) -> Option<Option<TrackLinkV>> {
    match lookup(o, key) {
        None => Some(None),
        Some(JsonV::Null) => Some(None),
        Some(jv) => match spec_parse_link(jv) {
            Some(l) => Some(Some(l)),
            None => None,
        },
    }
}

/// Reads an optional track-link field.
pub fn get_opt_link(pairs: &Vec<JsonPair>, key: &str) -> (r: Result<Option<TrackLink>, ApiError>)
    ensures
        match f_opt_link(pairs_view(pairs@), key@) {
            Some(ol) => r matches Ok(v) && opt_link_view(v) == ol,
            None => r matches Err(e) && e == ApiError::MalformedResponse,
        },
{
    match lookup_key(pairs, key) {
        None => Ok(None),
        Some(Json::Null) => Ok(None),
        Some(j) => match TrackLink::from_json(j) {
            Ok(l) => Ok(Some(l)),
            Err(e) => Err(e),
        },
    }
}

/// The view of an optional restriction.
pub open spec fn opt_restriction_view(v: Option<Restriction>) -> Option<RestrictionV> {
    match v {
        Some(x) => Some(x@),
        None => None,
    }
}

/// An optional restriction field: missing and `null` read as `None`.
pub open spec fn f_opt_restriction(o: ObjV, key: Seq<char>) -> Option<Option<RestrictionV>> {
    match lookup(o, key) {
        None => Some(None),
        Some(JsonV::Null) => Some(None),
        Some(jv) => match spec_parse_restriction(jv) {
            Some(x) => Some(Some(x)),
            None => None,
        },
    }
}

/// Reads an optional restriction field.
pub fn get_opt_restriction(pairs: &Vec<JsonPair>, key: &str) -> (r: Result<
    Option<Restriction>,
    ApiError,
>)
    ensures
        match f_opt_restriction(pairs_view(pairs@), key@) {
            Some(orr) => r matches Ok(v) && opt_restriction_view(v) == orr,
            None => r matches Err(e) && e == ApiError::MalformedResponse,
        },
{
    match lookup_key(pairs, key) {
        None => Ok(None),
        Some(Json::Null) => Ok(None),
        Some(j) => match Restriction::from_json(j) {
            Ok(x) => Ok(Some(x)),
            Err(e) => Err(e),
        },
    }
}

/// A required owning-album field.
pub open spec fn f_album_field(o: ObjV, key: Seq<char>) -> Option<SimplifiedAlbumV> {
    match lookup(o, key) {
        Some(jv) => spec_parse_album(jv),
        None => None,
    }
}

/// Reads the required owning-album field.
pub fn get_album(pairs: &Vec<JsonPair>, key: &str) -> (r: Result<SimplifiedAlbum, ApiError>)
    ensures
        match f_album_field(pairs_view(pairs@), key@) {
            Some(v) => r matches Ok(a) && a@ == v,
            None => r matches Err(e) && e == ApiError::MalformedResponse,
        },
{
    match lookup_key(pairs, key) {
        Some(j) => SimplifiedAlbum::from_json(j),
        None => Err(ApiError::MalformedResponse),
    }
}

/// Full track object: the complete representation of one track.
#[derive(Clone, Debug, PartialEq, Eq)]
pub struct FullTrack {
    pub album: SimplifiedAlbum,
    pub artists: Vec<SimplifiedArtist>,
    pub available_markets: Vec<String>,
    pub disc_number: i32,
    pub duration: TrackDuration,
    pub explicit: bool,
    pub external_ids: Vec<(String, String)>,
    pub external_urls: Vec<(String, String)>,
    pub href: Option<String>,
    pub id: Option<String>,
    pub is_local: bool,
    pub is_playable: Option<bool>,
    pub linked_from: Option<TrackLink>,
    pub restrictions: Option<Restriction>,
    pub name: String,
    pub popularity: u32,
    pub preview_url: Option<String>,
    pub track_number: u32,
    pub _type: Type,
    pub uri: String,
}

/// The mathematical mirror of [`FullTrack`].
#[verifier::ext_equal]
pub struct FullTrackV {
    pub album: SimplifiedAlbumV,
    pub artists: Seq<SimplifiedArtistV>,
    pub available_markets: Seq<Seq<char>>,
    pub disc_number: i32,
    pub duration: TrackDuration,
    pub explicit: bool,
    pub external_ids: Seq<(Seq<char>, Seq<char>)>,
    pub external_urls: Seq<(Seq<char>, Seq<char>)>,
    pub href: Option<Seq<char>>,
    pub id: Option<Seq<char>>,
    pub is_local: bool,
    pub is_playable: Option<bool>,
    pub linked_from: Option<TrackLinkV>,
    pub restrictions: Option<RestrictionV>,
    pub name: Seq<char>,
    pub popularity: u32,
    pub preview_url: Option<Seq<char>>,
    pub track_number: u32,
    pub _type: Type,
    pub uri: Seq<char>,
}

impl FullTrackV {
    /// A track that came off the wire carries a whole-millisecond
    /// duration whose count fits the wire integer.
    pub open spec fn wf(self) -> bool {
        self.duration.from_wire()
    }
}

impl View for FullTrack {
    type V = FullTrackV;

    open spec fn view(&self) -> FullTrackV {
        FullTrackV {
            album: self.album@,
            artists: artists_view(self.artists@),
            available_markets: str_seq_view(self.available_markets@),
            disc_number: self.disc_number,
            duration: self.duration,
            explicit: self.explicit,
            external_ids: str_entries_view(self.external_ids@),
            external_urls: str_entries_view(self.external_urls@),
            href: opt_str_view(self.href),
            id: opt_str_view(self.id),
            is_local: self.is_local,
            is_playable: self.is_playable,
            linked_from: opt_link_view(self.linked_from),
            restrictions: opt_restriction_view(self.restrictions),
            name: self.name@,
            popularity: self.popularity,
            preview_url: opt_str_view(self.preview_url),
            track_number: self.track_number,
            _type: self._type,
            uri: self.uri@,
        }
    }
}

/// What a well-shaped full-track object reads as.  The `popularity`
/// member is required here, unlike in the simplified variant.
pub open spec fn spec_parse_full_track(j: JsonV) -> Option<FullTrackV> {
    match j {
        JsonV::Obj(o) => if f_album_field(o, "album"@) is Some && f_artists(o, "artists"@)
            is Some && f_str_arr_default(o, "available_markets"@) is Some && f_i32(
            o,
            "disc_number"@,
        ) is Some && f_millis(o, "duration_ms"@) is Some && f_bool(o, "explicit"@) is Some
            && f_str_map(o, "external_ids"@) is Some && f_str_map(o, "external_urls"@) is Some
            && f_opt_str(o, "href"@) is Some && f_opt_str(o, "id"@) is Some && f_bool(
            o,
            "is_local"@,
        ) is Some && f_opt_bool(o, "is_playable"@) is Some && f_opt_link(o, "linked_from"@)
            is Some && f_opt_restriction(o, "restrictions"@) is Some && f_str(o, "name"@)
            is Some && f_u32(o, "popularity"@) is Some && f_opt_str(o, "preview_url"@) is Some
            && f_u32(o, "track_number"@) is Some && f_type(o, "type"@) is Some && f_str(
            o,
            "uri"@,
        ) is Some {
            Some(
                FullTrackV {
                    album: f_album_field(o, "album"@)->Some_0,
                    artists: f_artists(o, "artists"@)->Some_0,
                    available_markets: f_str_arr_default(o, "available_markets"@)->Some_0,
                    disc_number: f_i32(o, "disc_number"@)->Some_0,
                    duration: f_millis(o, "duration_ms"@)->Some_0,
                    explicit: f_bool(o, "explicit"@)->Some_0,
                    external_ids: f_str_map(o, "external_ids"@)->Some_0,
                    external_urls: f_str_map(o, "external_urls"@)->Some_0,
                    href: f_opt_str(o, "href"@)->Some_0,
                    id: f_opt_str(o, "id"@)->Some_0,
                    is_local: f_bool(o, "is_local"@)->Some_0,
                    is_playable: f_opt_bool(o, "is_playable"@)->Some_0,
                    linked_from: f_opt_link(o, "linked_from"@)->Some_0,
                    restrictions: f_opt_restriction(o, "restrictions"@)->Some_0,
                    name: f_str(o, "name"@)->Some_0,
                    popularity: f_u32(o, "popularity"@)->Some_0,
                    preview_url: f_opt_str(o, "preview_url"@)->Some_0,
                    track_number: f_u32(o, "track_number"@)->Some_0,
                    _type: f_type(o, "type"@)->Some_0,
                    uri: f_str(o, "uri"@)->Some_0,
                },
            )
        } else {
            None
        },
        _ => None,
    }
}

/// The leading members of a serialized full track.
pub open spec fn ser_track_head(v: FullTrackV) -> ObjV {
    seq![("album"@, spec_ser_album(v.album)), ("artists"@, ser_artists(v.artists))]
}

/// The market-list member, skipped when the list is empty.
pub open spec fn ser_track_markets(v: FullTrackV) -> ObjV {
    if v.available_markets.len() == 0 {
        Seq::empty()
    } else {
        seq![("available_markets"@, ser_str_arr(v.available_markets))]
    }
}

/// The middle members of a serialized full track, always present.
pub open spec fn ser_track_mid(v: FullTrackV) -> ObjV {
    seq![
        ("disc_number"@, JsonV::Int(v.disc_number as i64)),
        ("duration_ms"@, JsonV::Int(v.duration.spec_as_millis() as i64)),
        ("explicit"@, JsonV::Bool(v.explicit)),
        ("external_ids"@, ser_str_map(v.external_ids)),
        ("external_urls"@, ser_str_map(v.external_urls)),
        ("href"@, ser_opt_str(v.href)),
        ("id"@, ser_opt_str(v.id)),
        ("is_local"@, JsonV::Bool(v.is_local)),
    ]
}

/// The playability member, skipped when absent.
pub open spec fn ser_track_playable(v: FullTrackV) -> ObjV {
    match v.is_playable {
        Some(b) => seq![("is_playable"@, JsonV::Bool(b))],
        None => Seq::empty(),
    }
}

/// The relink pointer member, skipped when absent.
pub open spec fn ser_track_linked(v: FullTrackV) -> ObjV {
    match v.linked_from {
        Some(l) => seq![("linked_from"@, spec_ser_link(l))],
        None => Seq::empty(),
    }
}

/// The restrictions member, skipped when absent.
pub open spec fn ser_track_restrictions(v: FullTrackV) -> ObjV {
    match v.restrictions {
        Some(x) => seq![("restrictions"@, spec_ser_restriction(x))],
        None => Seq::empty(),
    }
}

/// The trailing members of a serialized full track, always present.
pub open spec fn ser_track_tail(v: FullTrackV) -> ObjV {
    seq![
        ("name"@, JsonV::Str(v.name)),
        ("popularity"@, JsonV::Int(v.popularity as i64)),
        ("preview_url"@, ser_opt_str(v.preview_url)),
        ("track_number"@, JsonV::Int(v.track_number as i64)),
        ("type"@, JsonV::Str(type_str(v._type))),
        ("uri"@, JsonV::Str(v.uri)),
    ]
}

/// The wire shape of a full track, members in declaration order, with
/// the empty market list and absent optional members left out.
pub open spec fn spec_ser_full_track(v: FullTrackV) -> JsonV {
    JsonV::Obj(
        ser_track_head(v) + ser_track_markets(v) + ser_track_mid(v) + ser_track_playable(v)
            + ser_track_linked(v) + ser_track_restrictions(v) + ser_track_tail(v),
    )
}

/// A full track survives the trip onto the wire and back: parsing the
/// serialized form yields the track again, member for member.
#[verifier::rlimit(60)]
pub proof fn lemma_full_track_round_trip(v: FullTrackV)
    requires
        v.wf(),
    ensures
        spec_parse_full_track(spec_ser_full_track(v)) == Some(v),
{
    lemma_key_facts();
    reveal_with_fuel(lookup, 10);
    let s1 = ser_track_head(v);
    let s2 = ser_track_markets(v);
    let s3 = ser_track_mid(v);
    let s4 = ser_track_playable(v);
    let s5 = ser_track_linked(v);
    let s6 = ser_track_restrictions(v);
    let s7 = ser_track_tail(v);
    let o = s1 + s2 + s3 + s4 + s5 + s6 + s7;
    assert forall|key: Seq<char>| true implies lookup(o, key) == (if lookup(s1, key) is Some {
        lookup(s1, key)
    } else if lookup(s2, key) is Some {
        lookup(s2, key)
    } else if lookup(s3, key) is Some {
        lookup(s3, key)
    } else if lookup(s4, key) is Some {
        lookup(s4, key)
    } else if lookup(s5, key) is Some {
        lookup(s5, key)
    } else if lookup(s6, key) is Some {
        lookup(s6, key)
    } else {
        lookup(s7, key)
    }) by {
        lemma_lookup_concat(s1 + s2 + s3 + s4 + s5 + s6, s7, key);
        lemma_lookup_concat(s1 + s2 + s3 + s4 + s5, s6, key);
        lemma_lookup_concat(s1 + s2 + s3 + s4, s5, key);
        lemma_lookup_concat(s1 + s2 + s3, s4, key);
        lemma_lookup_concat(s1 + s2, s3, key);
        lemma_lookup_concat(s1, s2, key);
    }
    crate::model::album::lemma_album_round_trip(v.album);
    lemma_artists_round_trip(v.artists);
    if v.available_markets.len() != 0 {
        crate::codec::lemma_str_arr_round_trip(v.available_markets);
    }
    crate::codec::lemma_str_map_round_trip(v.external_ids);
    crate::codec::lemma_str_map_round_trip(v.external_urls);
    crate::duration::lemma_duration_round_trip(v.duration);
    if v.linked_from is Some {
        lemma_link_round_trip(v.linked_from->Some_0);
    }
    if v.restrictions is Some {
        crate::model::lemma_restriction_round_trip(v.restrictions->Some_0);
    }
    lemma_type_round_trip(v._type);
    assert(spec_parse_full_track(spec_ser_full_track(v))->Some_0 =~= v);
}

/// Every track a body parses to is wire-shaped.
pub proof fn lemma_parsed_track_wf(j: JsonV)
    ensures
        spec_parse_full_track(j) matches Some(v) ==> v.wf(),
{
    if j is Obj {
        crate::codec::lemma_f_millis_wire(j->Obj_0, "duration_ms"@);
    }
}

/// Re-serializing a parsed full-track body reproduces a semantically
/// equivalent body: one that parses to the very same track, whatever
/// member order or ignored extra members the original carried.
pub proof fn lemma_full_track_reserialize(j: JsonV)
    requires
        spec_parse_full_track(j) is Some,
    ensures
        spec_parse_full_track(spec_ser_full_track(spec_parse_full_track(j)->Some_0))
            == spec_parse_full_track(j),
{
    let v = spec_parse_full_track(j)->Some_0;
    lemma_parsed_track_wf(j);
    lemma_full_track_round_trip(v);
}

/// A full-track body without a `popularity` member never parses:
/// the member is required in the full variant.
pub proof fn lemma_full_track_requires_popularity(j: JsonV)
    ensures
        (j matches JsonV::Obj(o) && lookup(o, "popularity"@) is None) ==> spec_parse_full_track(j)
            is None,
{
}

/// A full-track body missing any required member reads as no track at
/// all, never as a track with a defaulted member.
pub proof fn lemma_full_track_required_members(o: ObjV)
    ensures
        lookup(o, "album"@) is None ==> spec_parse_full_track(JsonV::Obj(o)) is None,
        lookup(o, "artists"@) is None ==> spec_parse_full_track(JsonV::Obj(o)) is None,
        lookup(o, "disc_number"@) is None ==> spec_parse_full_track(JsonV::Obj(o)) is None,
        lookup(o, "duration_ms"@) is None ==> spec_parse_full_track(JsonV::Obj(o)) is None,
        lookup(o, "explicit"@) is None ==> spec_parse_full_track(JsonV::Obj(o)) is None,
        lookup(o, "external_ids"@) is None ==> spec_parse_full_track(JsonV::Obj(o)) is None,
        lookup(o, "external_urls"@) is None ==> spec_parse_full_track(JsonV::Obj(o)) is None,
        lookup(o, "is_local"@) is None ==> spec_parse_full_track(JsonV::Obj(o)) is None,
        lookup(o, "name"@) is None ==> spec_parse_full_track(JsonV::Obj(o)) is None,
        lookup(o, "popularity"@) is None ==> spec_parse_full_track(JsonV::Obj(o)) is None,
        lookup(o, "track_number"@) is None ==> spec_parse_full_track(JsonV::Obj(o)) is None,
        lookup(o, "type"@) is None ==> spec_parse_full_track(JsonV::Obj(o)) is None,
        lookup(o, "uri"@) is None ==> spec_parse_full_track(JsonV::Obj(o)) is None,
{
}

impl FullTrack {
    /// Reads a full track from its JSON shape.  Succeeds exactly on
    /// bodies matching the documented schema; a missing or ill-typed
    /// required member is a `MalformedResponse`, never a default.
    pub fn from_json(j: &Json) -> (r: Result<FullTrack, ApiError>)
        ensures
            match spec_parse_full_track(j@) {
                Some(v) => r matches Ok(t) && t@ == v && v.wf(),
                None => r matches Err(e) && e == ApiError::MalformedResponse,
            },
    {
        let pairs = match j {
            Json::Obj(p) => p,
            _ => {
                return Err(ApiError::MalformedResponse);
            },
        };
        let album = match get_album(pairs, "album") {
            Ok(v) => v,
            Err(e) => {
                return Err(e);
            },
        };
        let artists = match get_artists(pairs, "artists") {
            Ok(v) => v,
            Err(e) => {
                return Err(e);
            },
        };
        let available_markets = match get_str_arr_default(pairs, "available_markets") {
            Ok(v) => v,
            Err(e) => {
                return Err(e);
            },
        };
        let disc_number = match get_i32(pairs, "disc_number") {
            Ok(v) => v,
            Err(e) => {
                return Err(e);
            },
        };
        let duration = match get_millis(pairs, "duration_ms") {
            Ok(v) => v,
            Err(e) => {
                return Err(e);
            },
        };
        let explicit = match get_bool(pairs, "explicit") {
            Ok(v) => v,
            Err(e) => {
                return Err(e);
            },
        };
        let external_ids = match get_str_map(pairs, "external_ids") {
            Ok(v) => v,
            Err(e) => {
                return Err(e);
            },
        };
        let external_urls = match get_str_map(pairs, "external_urls") {
            Ok(v) => v,
            Err(e) => {
                return Err(e);
            },
        };
        let href = match get_opt_str(pairs, "href") {
            Ok(v) => v,
            Err(e) => {
                return Err(e);
            },
        };
        let id = match get_opt_str(pairs, "id") {
            Ok(v) => v,
            Err(e) => {
                return Err(e);
            },
        };
        let is_local = match get_bool(pairs, "is_local") {
            Ok(v) => v,
            Err(e) => {
                return Err(e);
            },
        };
        let is_playable = match get_opt_bool(pairs, "is_playable") {
            Ok(v) => v,
            Err(e) => {
                return Err(e);
            },
        };
        let linked_from = match get_opt_link(pairs, "linked_from") {
            Ok(v) => v,
            Err(e) => {
                return Err(e);
            },
        };
        let restrictions = match get_opt_restriction(pairs, "restrictions") {
            Ok(v) => v,
            Err(e) => {
                return Err(e);
            },
        };
        let name = match get_str(pairs, "name") {
            Ok(v) => v,
            Err(e) => {
                return Err(e);
            },
        };
        let popularity = match get_u32(pairs, "popularity") {
            Ok(v) => v,
            Err(e) => {
                return Err(e);
            },
        };
        let preview_url = match get_opt_str(pairs, "preview_url") {
            Ok(v) => v,
            Err(e) => {
                return Err(e);
            },
        };
        let track_number = match get_u32(pairs, "track_number") {
            Ok(v) => v,
            Err(e) => {
                return Err(e);
            },
        };
        let _type = match get_type(pairs, "type") {
            Ok(v) => v,
            Err(e) => {
                return Err(e);
            },
        };
        let uri = match get_str(pairs, "uri") {
            Ok(v) => v,
            Err(e) => {
                return Err(e);
            },
        };
        proof {
            crate::codec::lemma_f_millis_wire(pairs_view(pairs@), "duration_ms"@);
        }
        Ok(
            FullTrack {
                album,
                artists,
                available_markets,
                disc_number,
                duration,
                explicit,
                external_ids,
                external_urls,
                href,
                id,
                is_local,
                is_playable,
                linked_from,
                restrictions,
                name,
                popularity,
                preview_url,
                track_number,
                _type,
                uri,
            },
        )
    }

    /// Writes `self` in its JSON shape, members in declaration order,
    /// leaving the empty market list and absent optional members out.
    #[verifier::rlimit(60)]
    pub fn to_json(&self) -> (r: Json)
        requires
            self@.wf(),
        ensures
            r@ == spec_ser_full_track(self@),
    {
        let mut pairs: Vec<JsonPair> = Vec::new();
        pairs.push(JsonPair { key: "album".to_owned(), val: self.album.to_json() });
        pairs.push(JsonPair { key: "artists".to_owned(), val: artists_json(&self.artists) });
        if self.available_markets.len() > 0 {
            pairs.push(
                JsonPair {
                    key: "available_markets".to_owned(),
                    val: str_arr_json(&self.available_markets),
                },
            );
        }
        pairs.push(
            JsonPair { key: "disc_number".to_owned(), val: Json::Int(self.disc_number as i64) },
        );
        let ms = self.duration.as_millis();
        pairs.push(JsonPair { key: "duration_ms".to_owned(), val: Json::Int(ms as i64) });
        pairs.push(JsonPair { key: "explicit".to_owned(), val: Json::Bool(self.explicit) });
        pairs.push(
            JsonPair { key: "external_ids".to_owned(), val: str_map_json(&self.external_ids) },
        );
        pairs.push(
            JsonPair { key: "external_urls".to_owned(), val: str_map_json(&self.external_urls) },
        );
        pairs.push(JsonPair { key: "href".to_owned(), val: opt_str_json(&self.href) });
        pairs.push(JsonPair { key: "id".to_owned(), val: opt_str_json(&self.id) });
        pairs.push(JsonPair { key: "is_local".to_owned(), val: Json::Bool(self.is_local) });
        match self.is_playable {
            Some(b) => {
                pairs.push(JsonPair { key: "is_playable".to_owned(), val: Json::Bool(b) });
            },
            None => {},
        }
        match &self.linked_from {
            Some(l) => {
                pairs.push(JsonPair { key: "linked_from".to_owned(), val: l.to_json() });
            },
            None => {},
        }
        match &self.restrictions {
            Some(x) => {
                pairs.push(JsonPair { key: "restrictions".to_owned(), val: x.to_json() });
            },
            None => {},
        }
        pairs.push(JsonPair { key: "name".to_owned(), val: Json::Str(self.name.clone()) });
        pairs.push(
            JsonPair { key: "popularity".to_owned(), val: Json::Int(self.popularity as i64) },
        );
        pairs.push(JsonPair { key: "preview_url".to_owned(), val: opt_str_json(&self.preview_url) });
        pairs.push(
            JsonPair { key: "track_number".to_owned(), val: Json::Int(self.track_number as i64) },
        );
        pairs.push(JsonPair { key: "type".to_owned(), val: Json::Str(self._type.to_str()) });
        pairs.push(JsonPair { key: "uri".to_owned(), val: Json::Str(self.uri.clone()) });
        proof {
            lemma_pairs_view(pairs@);
            assert(pairs_view(pairs@) =~= spec_ser_full_track(self@)->Obj_0);
        }
        Json::Obj(pairs)
    }
}

/// The JSON shape of an optional boolean: `null` when absent.
pub open spec fn ser_opt_bool(b: Option<bool>) -> JsonV {
    match b {
        Some(x) => JsonV::Bool(x),
        None => JsonV::Null,
    }
}

/// Writes an optional boolean, `null` when absent.
pub fn opt_bool_json(b: &Option<bool>) -> (r: Json)
    ensures
        r@ == ser_opt_bool(*b),
{
    match b {
        Some(x) => Json::Bool(*x),
        None => Json::Null,
    }
}

/// The JSON shape of an optional track link: `null` when absent.
pub open spec fn ser_opt_link(l: Option<TrackLinkV>) -> JsonV {
    match l {
        Some(x) => spec_ser_link(x),
        None => JsonV::Null,
    }
}

/// Writes an optional track link, `null` when absent.
pub fn opt_link_json(l: &Option<TrackLink>) -> (r: Json)
    ensures
        r@ == ser_opt_link(opt_link_view(*l)),
{
    match l {
        Some(x) => x.to_json(),
        None => Json::Null,
    }
}

/// The JSON shape of an optional restriction: `null` when absent.
pub open spec fn ser_opt_restriction(x: Option<RestrictionV>) -> JsonV {
    match x {
        Some(r) => spec_ser_restriction(r),
        None => JsonV::Null,
    }
}

/// Writes an optional restriction, `null` when absent.
pub fn opt_restriction_json(x: &Option<Restriction>) -> (r: Json)
    ensures
        r@ == ser_opt_restriction(opt_restriction_view(*x)),
{
    match x {
        Some(r) => r.to_json(),
        None => Json::Null,
    }
}

/// The JSON shape of an optional string list: `null` when absent.
pub open spec fn ser_opt_str_arr(a: Option<Seq<Seq<char>>>) -> JsonV {
    match a {
        Some(items) => ser_str_arr(items),
        None => JsonV::Null,
    }
}

/// Writes an optional string list, `null` when absent.
pub fn opt_str_arr_json(a: &Option<Vec<String>>) -> (r: Json)
    ensures
        r@ == ser_opt_str_arr(crate::codec::opt_str_seq_view(*a)),
{
    match a {
        Some(items) => str_arr_json(items),
        None => Json::Null,
    }
}

/// Simplified track object: the strict field subset of the full
/// variant that album listings carry; it has no `popularity` member.
#[derive(Clone, Debug, PartialEq, Eq)]
pub struct SimplifiedTrack {
    pub artists: Vec<SimplifiedArtist>,
    pub available_markets: Option<Vec<String>>,
    pub disc_number: i32,
    pub duration: TrackDuration,
    pub explicit: bool,
    pub external_urls: Vec<(String, String)>,
    pub href: Option<String>,
    pub id: Option<String>,
    pub is_local: bool,
    pub is_playable: Option<bool>,
    pub linked_from: Option<TrackLink>,
    pub restrictions: Option<Restriction>,
    pub name: String,
    pub preview_url: Option<String>,
    pub track_number: u32,
    pub _type: Type,
    pub uri: String,
}

/// The mathematical mirror of [`SimplifiedTrack`].
#[verifier::ext_equal]
pub struct SimplifiedTrackV {
    pub artists: Seq<SimplifiedArtistV>,
    pub available_markets: Option<Seq<Seq<char>>>,
    pub disc_number: i32,
    pub duration: TrackDuration,
    pub explicit: bool,
    pub external_urls: Seq<(Seq<char>, Seq<char>)>,
    pub href: Option<Seq<char>>,
    pub id: Option<Seq<char>>,
    pub is_local: bool,
    pub is_playable: Option<bool>,
    pub linked_from: Option<TrackLinkV>,
    pub restrictions: Option<RestrictionV>,
    pub name: Seq<char>,
    pub preview_url: Option<Seq<char>>,
    pub track_number: u32,
    pub _type: Type,
    pub uri: Seq<char>,
}

impl SimplifiedTrackV {
    /// A track that came off the wire carries a whole-millisecond
    /// duration whose count fits the wire integer.
    pub open spec fn wf(self) -> bool {
        self.duration.from_wire()
    }
}

impl View for SimplifiedTrack {
    type V = SimplifiedTrackV;

    open spec fn view(&self) -> SimplifiedTrackV {
        SimplifiedTrackV {
            artists: artists_view(self.artists@),
            available_markets: crate::codec::opt_str_seq_view(self.available_markets),
            disc_number: self.disc_number,
            duration: self.duration,
            explicit: self.explicit,
            external_urls: str_entries_view(self.external_urls@),
            href: opt_str_view(self.href),
            id: opt_str_view(self.id),
            is_local: self.is_local,
            is_playable: self.is_playable,
            linked_from: opt_link_view(self.linked_from),
            restrictions: opt_restriction_view(self.restrictions),
            name: self.name@,
            preview_url: opt_str_view(self.preview_url),
            track_number: self.track_number,
            _type: self._type,
            uri: self.uri@,
        }
    }
}

/// What a well-shaped simplified-track object reads as.  No
/// `popularity` member is consulted: the simplified variant never
/// requires one.
pub open spec fn spec_parse_simplified_track(j: JsonV) -> Option<SimplifiedTrackV> {
    match j {
        JsonV::Obj(o) => if f_artists(o, "artists"@) is Some && crate::codec::f_opt_str_arr(
            o,
            "available_markets"@,
        ) is Some && f_i32(o, "disc_number"@) is Some && f_millis(o, "duration_ms"@) is Some
            && f_bool(o, "explicit"@) is Some && f_str_map(o, "external_urls"@) is Some
            && f_opt_str(o, "href"@) is Some && f_opt_str(o, "id"@) is Some && f_bool(
            o,
            "is_local"@,
        ) is Some && f_opt_bool(o, "is_playable"@) is Some && f_opt_link(o, "linked_from"@)
            is Some && f_opt_restriction(o, "restrictions"@) is Some && f_str(o, "name"@)
            is Some && f_opt_str(o, "preview_url"@) is Some && f_u32(o, "track_number"@)
            is Some && f_type(o, "type"@) is Some && f_str(o, "uri"@) is Some {
            Some(
                SimplifiedTrackV {
                    artists: f_artists(o, "artists"@)->Some_0,
                    available_markets: crate::codec::f_opt_str_arr(
                        o,
                        "available_markets"@,
                    )->Some_0,
                    disc_number: f_i32(o, "disc_number"@)->Some_0,
                    duration: f_millis(o, "duration_ms"@)->Some_0,
                    explicit: f_bool(o, "explicit"@)->Some_0,
                    external_urls: f_str_map(o, "external_urls"@)->Some_0,
                    href: f_opt_str(o, "href"@)->Some_0,
                    id: f_opt_str(o, "id"@)->Some_0,
                    is_local: f_bool(o, "is_local"@)->Some_0,
                    is_playable: f_opt_bool(o, "is_playable"@)->Some_0,
                    linked_from: f_opt_link(o, "linked_from"@)->Some_0,
                    restrictions: f_opt_restriction(o, "restrictions"@)->Some_0,
                    name: f_str(o, "name"@)->Some_0,
                    preview_url: f_opt_str(o, "preview_url"@)->Some_0,
                    track_number: f_u32(o, "track_number"@)->Some_0,
                    _type: f_type(o, "type"@)->Some_0,
                    uri: f_str(o, "uri"@)->Some_0,
                },
            )
        } else {
            None
        },
        _ => None,
    }
}

/// The wire shape of a simplified track: every member present, in
/// declaration order, with `null` for absent optional values.
pub open spec fn spec_ser_simplified_track(v: SimplifiedTrackV) -> JsonV {
    JsonV::Obj(
        seq![
            ("artists"@, ser_artists(v.artists)),
            ("available_markets"@, ser_opt_str_arr(v.available_markets)),
            ("disc_number"@, JsonV::Int(v.disc_number as i64)),
            ("duration_ms"@, JsonV::Int(v.duration.spec_as_millis() as i64)),
            ("explicit"@, JsonV::Bool(v.explicit)),
            ("external_urls"@, ser_str_map(v.external_urls)),
            ("href"@, ser_opt_str(v.href)),
            ("id"@, ser_opt_str(v.id)),
            ("is_local"@, JsonV::Bool(v.is_local)),
            ("is_playable"@, ser_opt_bool(v.is_playable)),
            ("linked_from"@, ser_opt_link(v.linked_from)),
            ("restrictions"@, ser_opt_restriction(v.restrictions)),
            ("name"@, JsonV::Str(v.name)),
            ("preview_url"@, ser_opt_str(v.preview_url)),
            ("track_number"@, JsonV::Int(v.track_number as i64)),
            ("type"@, JsonV::Str(type_str(v._type))),
            ("uri"@, JsonV::Str(v.uri)),
        ],
    )
}

/// A simplified track survives the trip onto the wire and back, and
/// its wire shape carries no `popularity` member at all.
#[verifier::rlimit(60)]
pub proof fn lemma_simplified_track_round_trip(v: SimplifiedTrackV)
    requires
        v.wf(),
    ensures
        spec_parse_simplified_track(spec_ser_simplified_track(v)) == Some(v),
        spec_ser_simplified_track(v) matches JsonV::Obj(o) && lookup(o, "popularity"@) is None,
{
    lemma_key_facts();
    reveal_with_fuel(lookup, 20);
    lemma_artists_round_trip(v.artists);
    if v.available_markets is Some {
        crate::codec::lemma_str_arr_round_trip(v.available_markets->Some_0);
    }
    crate::codec::lemma_str_map_round_trip(v.external_urls);
    crate::duration::lemma_duration_round_trip(v.duration);
    if v.linked_from is Some {
        lemma_link_round_trip(v.linked_from->Some_0);
    }
    if v.restrictions is Some {
        crate::model::lemma_restriction_round_trip(v.restrictions->Some_0);
    }
    lemma_type_round_trip(v._type);
    assert(spec_parse_simplified_track(spec_ser_simplified_track(v))->Some_0 =~= v);
}

impl SimplifiedTrack {
    /// Reads a simplified track from its JSON shape; the `popularity`
    /// member is never required.
    pub fn from_json(j: &Json) -> (r: Result<SimplifiedTrack, ApiError>)
        ensures
            match spec_parse_simplified_track(j@) {
                Some(v) => r matches Ok(t) && t@ == v && v.wf(),
                None => r matches Err(e) && e == ApiError::MalformedResponse,
            },
    {
        let pairs = match j {
            Json::Obj(p) => p,
            _ => {
                return Err(ApiError::MalformedResponse);
            },
        };
        let artists = match get_artists(pairs, "artists") {
            Ok(v) => v,
            Err(e) => {
                return Err(e);
            },
        };
        let available_markets = match crate::codec::get_opt_str_arr(pairs, "available_markets") {
            Ok(v) => v,
            Err(e) => {
                return Err(e);
            },
        };
        let disc_number = match get_i32(pairs, "disc_number") {
            Ok(v) => v,
            Err(e) => {
                return Err(e);
            },
        };
        let duration = match get_millis(pairs, "duration_ms") {
            Ok(v) => v,
            Err(e) => {
                return Err(e);
            },
        };
        let explicit = match get_bool(pairs, "explicit") {
            Ok(v) => v,
            Err(e) => {
                return Err(e);
            },
        };
        let external_urls = match get_str_map(pairs, "external_urls") {
            Ok(v) => v,
            Err(e) => {
                return Err(e);
            },
        };
        let href = match get_opt_str(pairs, "href") {
            Ok(v) => v,
            Err(e) => {
                return Err(e);
            },
        };
        let id = match get_opt_str(pairs, "id") {
            Ok(v) => v,
            Err(e) => {
                return Err(e);
            },
        };
        let is_local = match get_bool(pairs, "is_local") {
            Ok(v) => v,
            Err(e) => {
                return Err(e);
            },
        };
        let is_playable = match get_opt_bool(pairs, "is_playable") {
            Ok(v) => v,
            Err(e) => {
                return Err(e);
            },
        };
        let linked_from = match get_opt_link(pairs, "linked_from") {
            Ok(v) => v,
            Err(e) => {
                return Err(e);
            },
        };
        let restrictions = match get_opt_restriction(pairs, "restrictions") {
            Ok(v) => v,
            Err(e) => {
                return Err(e);
            },
        };
        let name = match get_str(pairs, "name") {
            Ok(v) => v,
            Err(e) => {
                return Err(e);
            },
        };
        let preview_url = match get_opt_str(pairs, "preview_url") {
            Ok(v) => v,
            Err(e) => {
                return Err(e);
            },
        };
        let track_number = match get_u32(pairs, "track_number") {
            Ok(v) => v,
            Err(e) => {
                return Err(e);
            },
        };
        let _type = match get_type(pairs, "type") {
            Ok(v) => v,
            Err(e) => {
                return Err(e);
            },
        };
        let uri = match get_str(pairs, "uri") {
            Ok(v) => v,
            Err(e) => {
                return Err(e);
            },
        };
        proof {
            crate::codec::lemma_f_millis_wire(pairs_view(pairs@), "duration_ms"@);
        }
        Ok(
            SimplifiedTrack {
                artists,
                available_markets,
                disc_number,
                duration,
                explicit,
                external_urls,
                href,
                id,
                is_local,
                is_playable,
                linked_from,
                restrictions,
                name,
                preview_url,
                track_number,
                _type,
                uri,
            },
        )
    }

    /// Writes `self` in its JSON shape: every member present, in
    /// declaration order, `null` standing for absent optional values.
    #[verifier::rlimit(60)]
    pub fn to_json(&self) -> (r: Json)
        requires
            self@.wf(),
        ensures
            r@ == spec_ser_simplified_track(self@),
    {
        let mut pairs: Vec<JsonPair> = Vec::new();
        pairs.push(JsonPair { key: "artists".to_owned(), val: artists_json(&self.artists) });
        pairs.push(
            JsonPair {
                key: "available_markets".to_owned(),
                val: opt_str_arr_json(&self.available_markets),
            },
        );
        pairs.push(
            JsonPair { key: "disc_number".to_owned(), val: Json::Int(self.disc_number as i64) },
        );
        let ms = self.duration.as_millis();
        pairs.push(JsonPair { key: "duration_ms".to_owned(), val: Json::Int(ms as i64) });
        pairs.push(JsonPair { key: "explicit".to_owned(), val: Json::Bool(self.explicit) });
        pairs.push(
            JsonPair { key: "external_urls".to_owned(), val: str_map_json(&self.external_urls) },
        );
        pairs.push(JsonPair { key: "href".to_owned(), val: opt_str_json(&self.href) });
        pairs.push(JsonPair { key: "id".to_owned(), val: opt_str_json(&self.id) });
        pairs.push(JsonPair { key: "is_local".to_owned(), val: Json::Bool(self.is_local) });
        pairs.push(JsonPair { key: "is_playable".to_owned(), val: opt_bool_json(&self.is_playable) });
        pairs.push(
            JsonPair { key: "linked_from".to_owned(), val: opt_link_json(&self.linked_from) },
        );
        pairs.push(
            JsonPair { key: "restrictions".to_owned(), val: opt_restriction_json(&self.restrictions) },
        );
        pairs.push(JsonPair { key: "name".to_owned(), val: Json::Str(self.name.clone()) });
        pairs.push(JsonPair { key: "preview_url".to_owned(), val: opt_str_json(&self.preview_url) });
        pairs.push(
            JsonPair { key: "track_number".to_owned(), val: Json::Int(self.track_number as i64) },
        );
        pairs.push(JsonPair { key: "type".to_owned(), val: Json::Str(self._type.to_str()) });
        pairs.push(JsonPair { key: "uri".to_owned(), val: Json::Str(self.uri.clone()) });
        proof {
            lemma_pairs_view(pairs@);
            assert(pairs_view(pairs@) =~= spec_ser_simplified_track(self@)->Obj_0);
        }
        Json::Obj(pairs)
    }
}

/// A required full-track member.
pub open spec fn f_track_field(o: ObjV, key: Seq<char>) -> Option<FullTrackV> {
    match lookup(o, key) {
        Some(jv) => spec_parse_full_track(jv),
        None => None,
    }
}

/// Saved track object: a full track together with the instant the
/// user saved it, an RFC 3339 string on the wire.
#[derive(Clone, Debug, PartialEq, Eq)]
pub struct SavedTrack {
    pub added_at: String,
    pub track: FullTrack,
}

/// The mathematical mirror of [`SavedTrack`].
#[verifier::ext_equal]
pub struct SavedTrackV {
    pub added_at: Seq<char>,
    pub track: FullTrackV,
}

impl SavedTrackV {
    /// The save instant is a valid RFC 3339 date-time and the track is
    /// wire-shaped.
    pub open spec fn wf(self) -> bool {
        crate::time::rfc3339_epoch_ms(self.added_at) is Some && self.track.wf()
    }
}

impl View for SavedTrack {
    type V = SavedTrackV;

    open spec fn view(&self) -> SavedTrackV {
        SavedTrackV { added_at: self.added_at@, track: self.track@ }
    }
}

/// What a well-shaped saved-track object reads as: the save instant
/// must be a valid RFC 3339 date-time.
pub open spec fn spec_parse_saved_track(j: JsonV) -> Option<SavedTrackV> {
    match j {
        JsonV::Obj(o) => if (f_str(o, "added_at"@) matches Some(s) && crate::time::rfc3339_epoch_ms(
            s,
        ) is Some) && f_track_field(o, "track"@) is Some {
            Some(
                SavedTrackV {
                    added_at: f_str(o, "added_at"@)->Some_0,
                    track: f_track_field(o, "track"@)->Some_0,
                },
            )
        } else {
            None
        },
        _ => None,
    }
}

/// The wire shape of a saved track.
pub open spec fn spec_ser_saved_track(v: SavedTrackV) -> JsonV {
    JsonV::Obj(
        seq![("added_at"@, JsonV::Str(v.added_at)), ("track"@, spec_ser_full_track(v.track))],
    )
}

/// A saved track survives the trip onto the wire and back.
pub proof fn lemma_saved_track_round_trip(v: SavedTrackV)
    requires
        v.wf(),
    ensures
        spec_parse_saved_track(spec_ser_saved_track(v)) == Some(v),
{
    lemma_key_facts();
    reveal_with_fuel(lookup, 4);
    lemma_full_track_round_trip(v.track);
    assert(spec_parse_saved_track(spec_ser_saved_track(v))->Some_0 =~= v);
}

impl SavedTrack {
    /// Reads a saved track from its JSON shape, rejecting a save
    /// instant that is not a valid RFC 3339 date-time.
    pub fn from_json(j: &Json) -> (r: Result<SavedTrack, ApiError>)
        ensures
            match spec_parse_saved_track(j@) {
                Some(v) => r matches Ok(t) && t@ == v && v.wf(),
                None => r matches Err(e) && e == ApiError::MalformedResponse,
            },
    {
        let pairs = match j {
            Json::Obj(p) => p,
            _ => {
                return Err(ApiError::MalformedResponse);
            },
        };
        let added_at = match get_str(pairs, "added_at") {
            Ok(v) => v,
            Err(e) => {
                return Err(e);
            },
        };
        match crate::time::parse_rfc3339_epoch_ms(added_at.as_str()) {
            Some(_) => {},
            None => {
                return Err(ApiError::MalformedResponse);
            },
        }
        let track = match lookup_key(pairs, "track") {
            Some(tj) => match FullTrack::from_json(tj) {
                Ok(t) => t,
                Err(e) => {
                    return Err(e);
                },
            },
            None => {
                return Err(ApiError::MalformedResponse);
            },
        };
        Ok(SavedTrack { added_at, track })
    }

    /// The save instant as signed milliseconds since the Unix epoch.
    pub fn added_at_epoch_ms(&self) -> (r: Option<i64>)
        ensures
            r == crate::time::rfc3339_epoch_ms(self.added_at@),
    {
        crate::time::parse_rfc3339_epoch_ms(self.added_at.as_str())
    }

    /// Writes `self` in its JSON shape.
    pub fn to_json(&self) -> (r: Json)
        requires
            self.track@.wf(),
        ensures
            r@ == spec_ser_saved_track(self@),
    {
        let mut pairs: Vec<JsonPair> = Vec::new();
        pairs.push(JsonPair { key: "added_at".to_owned(), val: Json::Str(self.added_at.clone()) });
        pairs.push(JsonPair { key: "track".to_owned(), val: self.track.to_json() });
        proof {
            lemma_pairs_view(pairs@);
            assert(pairs_view(pairs@) =~= spec_ser_saved_track(self@)->Obj_0);
        }
        Json::Obj(pairs)
    }
}

/// Whether every element of an array is a well-shaped full track.
pub open spec fn all_full_tracks(items: Seq<JsonV>) -> bool {
    forall|i: int| 0 <= i < items.len() ==> spec_parse_full_track(#[trigger] items[i]) is Some
}

/// The tracks an all-track array carries.
pub open spec fn full_tracks_of(items: Seq<JsonV>) -> Seq<FullTrackV> {
    Seq::new(items.len(), |i: int| spec_parse_full_track(items[i])->Some_0)
}

/// The view of a list of full tracks.
pub open spec fn tracks_view(s: Seq<FullTrack>) -> Seq<FullTrackV> {
    Seq::new(s.len(), |i: int| s[i]@)
}

/// Full tracks wrapped by a list, the response envelope of a
/// several-tracks request.
#[derive(Clone, Debug, PartialEq, Eq)]
pub struct FullTracks {
    pub tracks: Vec<FullTrack>,
}

/// What a well-shaped several-tracks envelope reads as.
pub open spec fn spec_parse_full_tracks(j: JsonV) -> Option<Seq<FullTrackV>> {
    match j {
        JsonV::Obj(o) => match lookup(o, "tracks"@) {
            Some(JsonV::Arr(items)) => if all_full_tracks(items) {
                Some(full_tracks_of(items))
            } else {
                None
            },
            _ => None,
        },
        _ => None,
    }
}

impl FullTracks {
    /// Reads a several-tracks envelope from its JSON shape.
    pub fn from_json(j: &Json) -> (r: Result<FullTracks, ApiError>)
        ensures
            match spec_parse_full_tracks(j@) {
                Some(vv) => r matches Ok(e) && tracks_view(e.tracks@) == vv,
                None => r matches Err(e) && e == ApiError::MalformedResponse,
            },
    {
        let pairs = match j {
            Json::Obj(p) => p,
            _ => {
                return Err(ApiError::MalformedResponse);
            },
        };
        match lookup_key(pairs, "tracks") {
            Some(Json::Arr(items)) => {
                let ghost iv = crate::json::elems_view(items@);
                proof {
                    crate::json::lemma_elems_view(items@);
                }
                let mut out: Vec<FullTrack> = Vec::new();
                let n: usize = items.len();
                for i in 0..n
                    invariant
                        n == items.len(),
                        iv == crate::json::elems_view(items@),
                        iv.len() == n,
                        j@ == JsonV::Obj(pairs_view(pairs@)),
                        lookup(pairs_view(pairs@), "tracks"@) == Some(JsonV::Arr(iv)),
                        forall|j: int| 0 <= j < n ==> iv[j] == items[j]@,
                        out@.len() == i,
                        forall|j: int|
                            0 <= j < i ==> spec_parse_full_track(#[trigger] iv[j]) is Some,
                        forall|j: int|
                            0 <= j < i ==> #[trigger] out@[j]@ == spec_parse_full_track(
                                iv[j],
                            )->Some_0,
                {
                    match FullTrack::from_json(&items[i]) {
                        Ok(t) => {
                            out.push(t);
                        },
                        Err(e) => {
                            proof {
                                assert(spec_parse_full_track(iv[i as int]) is None);
                                assert(!all_full_tracks(iv));
                            }
                            return Err(e);
                        },
                    }
                }
                proof {
                    assert(tracks_view(out@) =~= full_tracks_of(iv));
                }
                Ok(FullTracks { tracks: out })
            },
            _ => Err(ApiError::MalformedResponse),
        }
    }
}

/// A track identifier paired with the positions the track occupies in
/// a playlist: the input value of a playlist mutation.
pub struct TrackPositions<'id> {
    pub id: &'id TrackId,
    pub positions: Vec<u32>,
}

impl<'id> TrackPositions<'id> {
    /// Track in a playlist by an id.
    pub fn new(id: &'id TrackId, positions: Vec<u32>) -> (r: Self)
        ensures
            r.id == id,
            r.positions@ == positions@,
    {
        Self { id, positions }
    }
}

} // verus!

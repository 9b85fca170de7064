//! Codec tests: parsing, serialization, and the schema errors.

use tunewire::error::ApiError;
use tunewire::json::{Json, JsonPair};
use tunewire::model::track::{
    FullTrack, FullTracks, SavedTrack, SimplifiedTrack, TrackLink, TrackPositions,
};
use tunewire::model::{Restriction, TrackId, Type};

fn obj(members: Vec<(&str, Json)>) -> Json {
    let mut pairs: Vec<JsonPair> = Vec::new();
    for (k, v) in members {
        pairs.push(JsonPair { key: k.to_string(), val: v });
    }
    Json::Obj(pairs)
}

fn s(x: &str) -> Json {
    Json::Str(x.to_string())
}

fn smap(entries: Vec<(&str, &str)>) -> Json {
    let mut pairs: Vec<JsonPair> = Vec::new();
    for (k, v) in entries {
        pairs.push(JsonPair { key: k.to_string(), val: s(v) });
    }
    Json::Obj(pairs)
}

fn sarr(items: Vec<&str>) -> Json {
    let mut out: Vec<Json> = Vec::new();
    for it in items {
        out.push(s(it));
    }
    Json::Arr(out)
}

fn artist_json() -> Json {
    obj(vec![
        ("external_urls", smap(vec![("spotify", "https://open.example/artist/1abc")])),
        ("href", s("https://api.example/v1/artists/1abc")),
        ("id", s("1abc")),
        ("name", s("Birdy")),
        ("type", s("artist")),
        ("uri", s("spotify:artist:1abc")),
    ])
}

fn album_json() -> Json {
    obj(vec![
        ("album_type", s("album")),
        ("artists", Json::Arr(vec![artist_json()])),
        ("available_markets", sarr(vec!["GB", "US"])),
        ("external_urls", smap(vec![("spotify", "https://open.example/album/2def")])),
        ("href", s("https://api.example/v1/albums/2def")),
        ("id", s("2def")),
        ("name", s("Fire Within")),
        ("release_date", s("2013-09-23")),
        ("type", s("album")),
        ("uri", s("spotify:album:2def")),
    ])
}

fn link_json() -> Json {
    obj(vec![
        ("external_urls", smap(vec![("spotify", "https://open.example/track/9zzz")])),
        ("href", s("https://api.example/v1/tracks/9zzz")),
        ("id", s("9zzz")),
        ("type", s("track")),
        ("uri", s("spotify:track:9zzz")),
    ])
}

fn full_track_json() -> Json {
    obj(vec![
        ("album", album_json()),
        ("artists", Json::Arr(vec![artist_json()])),
        ("available_markets", sarr(vec!["US"])),
        ("disc_number", Json::Int(1)),
        ("duration_ms", Json::Int(207_959)),
        ("explicit", Json::Bool(false)),
        ("external_ids", smap(vec![("isrc", "GBARL1300783")])),
        ("external_urls", smap(vec![("spotify", "https://open.example/track/4wii")])),
        ("href", s("https://api.example/v1/tracks/4wii")),
        ("id", s("4wii")),
        ("is_local", Json::Bool(false)),
        ("is_playable", Json::Bool(true)),
        ("linked_from", link_json()),
        ("restrictions", obj(vec![("reason", s("market"))])),
        ("name", s("Wings")),
        ("popularity", Json::Int(65)),
        ("preview_url", Json::Null),
        ("track_number", Json::Int(1)),
        ("type", s("track")),
        ("uri", s("spotify:track:4wii")),
    ])
}

fn simplified_track_json() -> Json {
    obj(vec![
        ("artists", Json::Arr(vec![artist_json()])),
        ("available_markets", sarr(vec!["US"])),
        ("disc_number", Json::Int(1)),
        ("duration_ms", Json::Int(276_773)),
        ("explicit", Json::Bool(false)),
        ("external_urls", smap(vec![("spotify", "https://open.example/track/5abc")])),
        ("href", s("https://api.example/v1/tracks/5abc")),
        ("id", s("5abc")),
        ("is_local", Json::Bool(false)),
        ("is_playable", Json::Null),
        ("linked_from", Json::Null),
        ("restrictions", Json::Null),
        ("name", s("Heart of Gold")),
        ("preview_url", Json::Null),
        ("track_number", Json::Int(3)),
        ("type", s("track")),
        ("uri", s("spotify:track:5abc")),
    ])
}

#[test]
fn full_track_parses_and_reserializes_exactly() {
    let j = full_track_json();
    let t = FullTrack::from_json(&j).expect("schema-matching body must parse");
    assert_eq!(t.name, "Wings");
    assert_eq!(t.popularity, 65);
    assert_eq!(t.duration.as_millis(), 207_959);
    assert_eq!(t.disc_number, 1);
    assert_eq!(t._type, Type::Track);
    assert!(t.is_playable == Some(true));
    assert!(t.preview_url.is_none());
    assert_eq!(t.restrictions.as_ref().unwrap().reason, "market");
    assert_eq!(t.linked_from.as_ref().unwrap().id, "9zzz");
    assert_eq!(t.album.name, "Fire Within");
    assert_eq!(t.artists.len(), 1);
    assert_eq!(t.artists[0].name, "Birdy");
    let back = t.to_json();
    assert_eq!(back, j);
}

#[test]
fn full_track_skips_absent_optional_members() {
    let j = full_track_json();
    let mut t = FullTrack::from_json(&j).unwrap();
    t.available_markets = Vec::new();
    t.is_playable = None;
    t.linked_from = None;
    t.restrictions = None;
    let back = t.to_json();
    assert!(back.get("available_markets").is_none());
    assert!(back.get("is_playable").is_none());
    assert!(back.get("linked_from").is_none());
    assert!(back.get("restrictions").is_none());
    assert!(back.get("name").is_some());
    let again = FullTrack::from_json(&back).unwrap();
    assert_eq!(again, t);
}

#[test]
fn full_track_requires_popularity() {
    let j = full_track_json();
    let without = match j {
        Json::Obj(pairs) => {
            Json::Obj(pairs.into_iter().filter(|p| p.key != "popularity").collect())
        }
        _ => unreachable!(),
    };
    assert_eq!(FullTrack::from_json(&without), Err(ApiError::MalformedResponse));
}

#[test]
fn simplified_track_needs_no_popularity() {
    let j = simplified_track_json();
    assert!(j.get("popularity").is_none());
    let t = SimplifiedTrack::from_json(&j).expect("simplified body without popularity must parse");
    assert_eq!(t.name, "Heart of Gold");
    assert_eq!(t.duration.as_millis(), 276_773);
    let back = t.to_json();
    assert_eq!(back, j);
}

#[test]
fn missing_required_member_is_malformed_not_defaulted() {
    let j = full_track_json();
    for required in ["album", "artists", "duration_ms", "explicit", "name", "uri", "type"] {
        let without = match &j {
            Json::Obj(pairs) => Json::Obj(
                pairs
                    .iter()
                    .filter(|p| p.key != required)
                    .map(|p| JsonPair { key: p.key.clone(), val: clone_json(&p.val) })
                    .collect(),
            ),
            _ => unreachable!(),
        };
        assert_eq!(
            FullTrack::from_json(&without),
            Err(ApiError::MalformedResponse),
            "missing {required} must be malformed"
        );
    }
}

fn clone_json(j: &Json) -> Json {
    match j {
        Json::Null => Json::Null,
        Json::Bool(b) => Json::Bool(*b),
        Json::Int(i) => Json::Int(*i),
        Json::Str(x) => Json::Str(x.clone()),
        Json::Arr(items) => Json::Arr(items.iter().map(clone_json).collect()),
        Json::Obj(pairs) => Json::Obj(
            pairs
                .iter()
                .map(|p| JsonPair { key: p.key.clone(), val: clone_json(&p.val) })
                .collect(),
        ),
    }
}

#[test]
fn wrong_member_type_is_malformed() {
    let j = match full_track_json() {
        Json::Obj(pairs) => Json::Obj(
            pairs
                .into_iter()
                .map(|p| {
                    if p.key == "duration_ms" {
                        JsonPair { key: p.key, val: s("207959") }
                    } else {
                        p
                    }
                })
                .collect(),
        ),
        _ => unreachable!(),
    };
    assert_eq!(FullTrack::from_json(&j), Err(ApiError::MalformedResponse));
}

#[test]
fn negative_duration_is_malformed() {
    let j = match full_track_json() {
        Json::Obj(pairs) => Json::Obj(
            pairs
                .into_iter()
                .map(|p| {
                    if p.key == "duration_ms" {
                        JsonPair { key: p.key, val: Json::Int(-1) }
                    } else {
                        p
                    }
                })
                .collect(),
        ),
        _ => unreachable!(),
    };
    assert_eq!(FullTrack::from_json(&j), Err(ApiError::MalformedResponse));
}

#[test]
fn non_object_body_is_malformed() {
    assert_eq!(FullTrack::from_json(&Json::Int(7)), Err(ApiError::MalformedResponse));
    assert_eq!(TrackLink::from_json(&Json::Null), Err(ApiError::MalformedResponse));
    assert_eq!(SimplifiedTrack::from_json(&sarr(vec!["x"])), Err(ApiError::MalformedResponse));
}

#[test]
fn track_link_round_trips() {
    let j = link_json();
    let l = TrackLink::from_json(&j).unwrap();
    assert_eq!(l.href, "https://api.example/v1/tracks/9zzz");
    assert_eq!(l._type, Type::Track);
    assert_eq!(l.to_json(), j);
}

#[test]
fn saved_track_parses_added_at() {
    let j = obj(vec![("added_at", s("1970-01-01T00:00:01Z")), ("track", full_track_json())]);
    let st = SavedTrack::from_json(&j).unwrap();
    assert_eq!(st.added_at_epoch_ms(), Some(1000));
    assert_eq!(st.track.name, "Wings");
    assert_eq!(st.to_json(), j);
}

#[test]
fn saved_track_honours_timezone_offset() {
    let j = obj(vec![("added_at", s("1970-01-01T01:00:00+01:00")), ("track", full_track_json())]);
    let st = SavedTrack::from_json(&j).unwrap();
    assert_eq!(st.added_at_epoch_ms(), Some(0));
}

#[test]
fn saved_track_rejects_bad_timestamp() {
    let j = obj(vec![("added_at", s("not a date")), ("track", full_track_json())]);
    assert_eq!(SavedTrack::from_json(&j), Err(ApiError::MalformedResponse));
}

#[test]
fn several_tracks_envelope_parses() {
    let j = obj(vec![("tracks", Json::Arr(vec![full_track_json(), full_track_json()]))]);
    let e = FullTracks::from_json(&j).unwrap();
    assert_eq!(e.tracks.len(), 2);
    assert_eq!(e.tracks[1].name, "Wings");
    let missing = obj(vec![]);
    assert_eq!(FullTracks::from_json(&missing), Err(ApiError::MalformedResponse));
}

#[test]
fn type_tags_round_trip_their_spelling() {
    for (t, w) in [
        (Type::Artist, "artist"),
        (Type::Album, "album"),
        (Type::Track, "track"),
        (Type::Playlist, "playlist"),
        (Type::User, "user"),
        (Type::Show, "show"),
        (Type::Episode, "episode"),
    ] {
        assert_eq!(t.to_str(), w);
        assert_eq!(Type::parse(w), Some(t));
    }
    assert_eq!(Type::parse("banana"), None);
}

#[test]
fn object_lookup_takes_first_occurrence() {
    let j = obj(vec![("a", Json::Int(1)), ("b", Json::Int(2)), ("a", Json::Int(3))]);
    assert_eq!(j.get("a"), Some(&Json::Int(1)));
    assert_eq!(j.get("b"), Some(&Json::Int(2)));
    assert_eq!(j.get("c"), None);
    assert_eq!(Json::Int(5).get("a"), None);
}

#[test]
fn track_positions_keeps_id_and_positions() {
    let id = TrackId::new("4wii".to_string());
    let tp = TrackPositions::new(&id, vec![0, 4, 7]);
    assert_eq!(tp.id.id, "4wii");
    assert_eq!(tp.positions, vec![0, 4, 7]);
}

#[test]
fn restriction_round_trips() {
    let j = obj(vec![("reason", s("market"))]);
    let r = Restriction::from_json(&j).unwrap();
    assert_eq!(r.reason, "market");
    assert_eq!(r.to_json(), j);
}

fn value_to_json(v: &serde_json::Value) -> Option<Json> {
    match v {
        serde_json::Value::Null => Some(Json::Null),
        serde_json::Value::Bool(b) => Some(Json::Bool(*b)),
        serde_json::Value::Number(n) => n.as_i64().map(Json::Int),
        serde_json::Value::String(x) => Some(Json::Str(x.clone())),
        serde_json::Value::Array(items) => {
            let mut out: Vec<Json> = Vec::new();
            for it in items {
                out.push(value_to_json(it)?);
            }
            Some(Json::Arr(out))
        }
        serde_json::Value::Object(members) => {
            let mut out: Vec<JsonPair> = Vec::new();
            for (k, val) in members {
                out.push(JsonPair { key: k.clone(), val: value_to_json(val)? });
            }
            Some(Json::Obj(out))
        }
    }
}

#[test]
fn wire_text_parses_through_the_codec() {
    let text = r#"{"external_urls":{"spotify":"https://open.example/track/9zzz"},
        "href":"https://api.example/v1/tracks/9zzz","id":"9zzz",
        "type":"track","uri":"spotify:track:9zzz"}"#;
    let value: serde_json::Value = serde_json::from_str(text).unwrap();
    let j = value_to_json(&value).unwrap();
    let l = TrackLink::from_json(&j).unwrap();
    assert_eq!(l.uri, "spotify:track:9zzz");
}

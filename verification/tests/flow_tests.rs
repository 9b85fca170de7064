//! Tests of the duration codec, the error taxonomy, the pagination
//! helper, and the credential manager.

use tunewire::auth::{TokenAction, TokenCache};
use tunewire::duration::TrackDuration;
use tunewire::error::{classify_status, ApiError};
use tunewire::paging::{Page, Pager, PagerStep};
use tunewire::url::{album_tracks_url, u32_string};

#[test]
fn duration_round_trips_boundary_millis() {
    for ms in [0u64, 1, 999, 1000, 1001, 86_400_000, 90_061_001] {
        let d = TrackDuration::from_millis(ms);
        assert_eq!(d.as_millis(), ms as u128, "{ms} must round-trip");
    }
    let big = u64::MAX;
    assert_eq!(TrackDuration::from_millis(big).as_millis(), big as u128);
}

#[test]
fn duration_splits_seconds_and_nanos() {
    let d = TrackDuration::from_millis(90_061_001);
    assert_eq!(d.secs, 90_061);
    assert_eq!(d.nanos, 1_000_000);
}

#[test]
fn status_codes_map_to_their_errors() {
    assert_eq!(classify_status(404, None), ApiError::NotFound);
    assert_eq!(classify_status(429, Some(5)), ApiError::RateLimited(Some(5)));
    assert_eq!(classify_status(429, None), ApiError::RateLimited(None));
    assert_eq!(classify_status(401, None), ApiError::AuthenticationError);
    assert_eq!(classify_status(403, None), ApiError::AuthenticationError);
    assert_eq!(classify_status(500, None), ApiError::NetworkError);
    assert_eq!(classify_status(418, None), ApiError::NetworkError);
}

fn page(items: Vec<i32>, offset: u32, next: Option<&str>) -> Page<i32> {
    Page {
        href: "https://api.example/v1/albums/2def/tracks".to_string(),
        items,
        limit: 2,
        next: next.map(|u| u.to_string()),
        offset,
        previous: None,
        total: 5,
    }
}

#[test]
fn three_pages_yield_in_order_with_three_fetches() {
    // The caller fetches the first page itself: one network fetch.
    let mut fetches: u32 = 1;
    let mut pager = Pager::new(page(vec![1, 2], 0, Some("page2")));
    let mut seen: Vec<i32> = Vec::new();
    loop {
        match pager.step() {
            PagerStep::Item(it) => seen.push(it),
            PagerStep::Fetch(url) => {
                fetches += 1;
                match url.as_str() {
                    "page2" => pager.supply_page(page(vec![3, 4], 2, Some("page3"))),
                    "page3" => pager.supply_page(page(vec![5], 4, None)),
                    other => panic!("unexpected cursor {other}"),
                }
            }
            PagerStep::Done => break,
        }
    }
    assert_eq!(seen, vec![1, 2, 3, 4, 5]);
    assert_eq!(fetches, 3, "three pages take exactly three fetches");
    assert_eq!(pager.fetch_count(), 2, "the pager itself asked for two of them");
    // The last page's cursor is absent: no fourth fetch is ever asked for.
    assert!(matches!(pager.step(), PagerStep::Done));
}

#[test]
fn pager_stops_without_cursor() {
    let mut pager = Pager::new(page(vec![7], 0, None));
    assert!(matches!(pager.step(), PagerStep::Item(7)));
    assert!(matches!(pager.step(), PagerStep::Done));
    assert_eq!(pager.fetch_count(), 0);
}

#[test]
fn expired_token_triggers_exactly_one_exchange() {
    let mut cache = TokenCache::new();
    cache.complete_refresh("stale".to_string(), 100);
    let now: u64 = 100;  // the token expires at 100: it is no longer valid
    let mut exchanges: u32 = 0;
    // Two concurrent callers hit the same cache.
    let first = cache.begin_request(now);
    if matches!(first, TokenAction::StartRefresh) {
        exchanges += 1;
    }
    let second = cache.begin_request(now);
    if matches!(second, TokenAction::StartRefresh) {
        exchanges += 1;
    }
    assert!(matches!(first, TokenAction::StartRefresh));
    assert!(matches!(second, TokenAction::AwaitRefresh));
    assert_eq!(exchanges, 1, "one exchange, not one per caller");
    // The one exchange completes; both callers now share the new token.
    cache.complete_refresh("fresh".to_string(), 200);
    match cache.begin_request(now) {
        TokenAction::UseToken(tok) => assert_eq!(tok, "fresh"),
        _ => panic!("a valid token must be used, not refreshed"),
    }
}

#[test]
fn token_is_never_exposed_at_or_past_expiry() {
    let mut cache = TokenCache::new();
    cache.complete_refresh("tok".to_string(), 100);
    match cache.begin_request(99) {
        TokenAction::UseToken(tok) => assert_eq!(tok, "tok"),
        _ => panic!("a token strictly before expiry is valid"),
    }
    let mut cache2 = TokenCache::new();
    cache2.complete_refresh("tok".to_string(), 100);
    assert!(matches!(cache2.begin_request(100), TokenAction::StartRefresh));
}

#[test]
fn rejected_exchange_surfaces_authentication_error() {
    let mut cache = TokenCache::new();
    assert!(matches!(cache.begin_request(0), TokenAction::StartRefresh));
    // The exchange is rejected: the library maps the rejection to its
    // error and clears the in-flight mark.
    cache.fail_refresh();
    assert_eq!(classify_status(401, None), ApiError::AuthenticationError);
    // A later request may start a fresh exchange.
    assert!(matches!(cache.begin_request(0), TokenAction::StartRefresh));
}

#[test]
fn album_tracks_url_carries_path_and_query() {
    assert_eq!(u32_string(0), "0");
    assert_eq!(u32_string(7), "7");
    assert_eq!(u32_string(1_234_567_890), "1234567890");
    assert_eq!(
        album_tracks_url("6akEvsycLGftJxYudPjmqK", Some(2), None),
        "v1/albums/6akEvsycLGftJxYudPjmqK/tracks?limit=2"
    );
    assert_eq!(
        album_tracks_url("6akEvsycLGftJxYudPjmqK", Some(2), Some(4)),
        "v1/albums/6akEvsycLGftJxYudPjmqK/tracks?limit=2&offset=4"
    );
    assert_eq!(album_tracks_url("x", None, Some(3)), "v1/albums/x/tracks?offset=3");
    assert_eq!(album_tracks_url("x", None, None), "v1/albums/x/tracks");
}

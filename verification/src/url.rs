//! URL construction for the call layer: endpoint paths and query
//! strings as exact character sequences.

use vstd::prelude::*;

verus! {

/// The decimal digit `d` as a character.
pub open spec fn digit_char(d: nat) -> char {
    if d == 0 {
        '0'
    } else if d == 1 {
        '1'
    } else if d == 2 {
        '2'
    } else if d == 3 {
        '3'
    } else if d == 4 {
        '4'
    } else if d == 5 {
        '5'
    } else if d == 6 {
        '6'
    } else if d == 7 {
        '7'
    } else if d == 8 {
        '8'
    } else {
        '9'
    }
}

/// The decimal spelling of `n`, most significant digit first.
pub open spec fn dec_digits(n: nat) -> Seq<char>
    decreases n,
{
    if n < 10 {
        seq![digit_char(n)]
    } else {
        dec_digits(n / 10) + seq![digit_char(n % 10)]
    }
}

/// One decimal digit as a string.
fn digit_str(d: u32) -> (r: String)
    requires
        d < 10,
    ensures
        r@ == seq![digit_char(d as nat)],
{
    proof {
        reveal_strlit("0");
        reveal_strlit("1");
        reveal_strlit("2");
        reveal_strlit("3");
        reveal_strlit("4");
        reveal_strlit("5");
        reveal_strlit("6");
        reveal_strlit("7");
        reveal_strlit("8");
        reveal_strlit("9");
    }
    let r = if d == 0 {
        "0".to_owned()
    } else if d == 1 {
        "1".to_owned()
    } else if d == 2 {
        "2".to_owned()
    } else if d == 3 {
        "3".to_owned()
    } else if d == 4 {
        "4".to_owned()
    } else if d == 5 {
        "5".to_owned()
    } else if d == 6 {
        "6".to_owned()
    } else if d == 7 {
        "7".to_owned()
    } else if d == 8 {
        "8".to_owned()
    } else {
        "9".to_owned()
    };
    proof {
        assert(r@ =~= seq![digit_char(d as nat)]);
    }
    r
}

/// Writes `n` in decimal.
pub fn u32_string(n: u32) -> (r: String)
    ensures
        r@ == dec_digits(n as nat),
    decreases n,
{
    if n < 10 {
        digit_str(n)
    } else {
        let high = u32_string(n / 10);
        let low = digit_str(n % 10);
        high.concat(low.as_str())
    }
}

/// The query string for an optional limit and an optional offset:
/// empty when neither is given.
pub open spec fn spec_paging_query(limit: Option<u32>, offset: Option<u32>) -> Seq<char> {
    match (limit, offset) {
        (None, None) => Seq::empty(),
        (Some(l), None) => "?limit="@ + dec_digits(l as nat),
        (None, Some(o)) => "?offset="@ + dec_digits(o as nat),
        (Some(l), Some(o)) => "?limit="@ + dec_digits(l as nat) + "&offset="@ + dec_digits(
            o as nat,
        ),
    }
}

/// The path and query of an album-tracks request.
pub open spec fn spec_album_tracks_url(album_id: Seq<char>, limit: Option<u32>, offset: Option<
    u32,
>) -> Seq<char> {
    "v1/albums/"@ + album_id + "/tracks"@ + spec_paging_query(limit, offset)
}

/// Builds the path and query of an album-tracks request.
pub fn album_tracks_url(album_id: &str, limit: Option<u32>, offset: Option<u32>) -> (r: String)
    ensures
        r@ == spec_album_tracks_url(album_id@, limit, offset),
{
    let mut r = "v1/albums/".to_owned();
    r.append(album_id);
    r.append("/tracks");
    match (limit, offset) {
        (None, None) => {},
        (Some(l), None) => {
            r.append("?limit=");
            let ls = u32_string(l);
            r.append(ls.as_str());
        },
        (None, Some(o)) => {
            r.append("?offset=");
            let os = u32_string(o);
            r.append(os.as_str());
        },
        (Some(l), Some(o)) => {
            r.append("?limit=");
            let ls = u32_string(l);
            r.append(ls.as_str());
            r.append("&offset=");
            let os = u32_string(o);
            r.append(os.as_str());
        },
    }
    proof {
        assert(r@ =~= spec_album_tracks_url(album_id@, limit, offset));
    }
    r
}

} // verus!

//! Typed client-side model for a music-streaming web API.
//!
//! The library mirrors the API's JSON object model (tracks, albums,
//! artists, paging envelopes) as plain records, transcodes them to and
//! from a JSON value type, and provides the pure decision logic of the
//! credential manager and of the pagination helper.  All network and
//! clock work stays outside: callers hand in response bodies and the
//! current time as plain values.

pub mod auth;
pub mod codec;
pub mod duration;
pub mod error;
pub mod json;
pub mod model;
pub mod paging;
mod text;
pub mod time;
pub mod url;

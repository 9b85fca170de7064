//! Durations as the API carries them.
//!
//! On the wire a duration is an integer count of milliseconds; in
//! memory it is a seconds/nanoseconds pair, the shape of a native
//! duration value.  The two conversions here are exact inverses of one
//! another, which [`lemma_millis_round_trip`] states and proves.

use vstd::prelude::*;

verus! {

/// A non-negative span of time: `secs` whole seconds plus `nanos`
/// nanoseconds, with `nanos < 1_000_000_000`.
#[derive(Clone, Copy, Debug, PartialEq, Eq, Structural)]
pub struct TrackDuration {
    pub secs: u64,
    pub nanos: u32,
}

impl TrackDuration {
    /// A carried duration is well-formed when the nanosecond part does
    /// not reach a full second.
    pub open spec fn wf(self) -> bool {
        self.nanos < 1_000_000_000
    }

    /// A duration that came off the wire is a whole number of
    /// milliseconds, and that number fits the wire's signed 64-bit
    /// integer.
    pub open spec fn from_wire(self) -> bool {
        &&& self.wf()
        &&& self.nanos % 1_000_000 == 0
        &&& self.spec_as_millis() <= i64::MAX
    }

    /// The total count of whole milliseconds in `self`.
    pub open spec fn spec_as_millis(self) -> int {
        self.secs * 1000 + self.nanos / 1_000_000
    }

    /// The duration of `ms` milliseconds.
    pub open spec fn spec_from_millis(ms: u64) -> TrackDuration {
        TrackDuration { secs: ms / 1000, nanos: ((ms % 1000) * 1_000_000) as u32 }
    }

    /// Builds the duration of `ms` whole milliseconds.
    pub fn from_millis(ms: u64) -> (d: TrackDuration)
        ensures
            d == TrackDuration::spec_from_millis(ms),
            d.wf(),
            d.nanos % 1_000_000 == 0,
    {
        TrackDuration { secs: ms / 1000, nanos: ((ms % 1000) as u32) * 1_000_000 }
    }

    /// The total count of whole milliseconds, rounding the nanosecond
    /// remainder down.
    pub fn as_millis(&self) -> (ms: u128)
        requires
            self.wf(),
        ensures
            ms == self.spec_as_millis(),
    {
        (self.secs as u128) * 1000 + (self.nanos / 1_000_000) as u128
    }
}

/// Millisecond counts survive the trip into a native duration value and
/// back unchanged, for every count the wire can carry.
pub proof fn lemma_millis_round_trip(ms: u64)
    ensures
        TrackDuration::spec_from_millis(ms).wf(),
        TrackDuration::spec_from_millis(ms).spec_as_millis() == ms,
{
    let d = TrackDuration::spec_from_millis(ms);
    assert(d.nanos == (ms % 1000) * 1_000_000);
    assert(d.nanos / 1_000_000 == ms % 1000) by (nonlinear_arith)
        requires
            d.nanos == (ms % 1000) * 1_000_000,
    ;
    assert(d.secs * 1000 + ms % 1000 == ms) by (nonlinear_arith)
        requires
            d.secs == ms / 1000,
    ;
}

/// A duration built from a wire millisecond count is itself
/// wire-shaped.
pub proof fn lemma_from_millis_wire(ms: u64)
    requires
        ms <= i64::MAX,
    ensures
        TrackDuration::spec_from_millis(ms).from_wire(),
{
    let d = TrackDuration::spec_from_millis(ms);
    lemma_millis_round_trip(ms);
    assert(d.nanos % 1_000_000 == 0) by (nonlinear_arith)
        requires
            d.nanos == (ms % 1000) * 1_000_000,
    ;
}

/// A whole-millisecond duration survives the trip onto the wire and
/// back unchanged: serializing `d` as its millisecond count and parsing
/// that count yields `d` again.
pub proof fn lemma_duration_round_trip(d: TrackDuration)
    requires
        d.from_wire(),
    ensures
        TrackDuration::spec_from_millis(d.spec_as_millis() as u64) == d,
{
    let ms = d.spec_as_millis();
    assert(0 <= ms <= u64::MAX);
    let m = ms as u64;
    assert(d.nanos / 1_000_000 < 1000);
    assert(m / 1000 == d.secs && m % 1000 == d.nanos / 1_000_000) by (nonlinear_arith)
        requires
            m == d.secs * 1000 + d.nanos / 1_000_000,
            d.nanos / 1_000_000 < 1000,
    ;
    assert((d.nanos / 1_000_000) * 1_000_000 == d.nanos) by (nonlinear_arith)
        requires
            d.nanos % 1_000_000 == 0,
    ;
}

} // verus!

//! Instants as plain values: a time-zone-aware wire instant and the naive,
//! implicitly UTC instant that the domain model stores.

use vstd::prelude::*;

verus! {

/// A naive instant, to be read as UTC: whole seconds since the Unix epoch and
/// the nanoseconds past that second.
#[derive(Debug, Clone, Copy, PartialEq, Eq, Structural)]
pub struct NaiveTimestamp {
    pub secs: i64,
    pub nanos: u32,
}

/// An instant as the wire carries it: the UTC instant together with the
/// offset, in seconds east of UTC, of the time zone it was written in.
#[derive(Debug, Clone, Copy, PartialEq, Eq, Structural)]
pub struct ZonedTimestamp {
    pub utc_secs: i64,
    pub nanos: u32,
    pub offset_secs: i32,
}

impl ZonedTimestamp {
    /// The same instant with its offset dropped.
    pub open spec fn spec_naive_utc(&self) -> NaiveTimestamp {
        NaiveTimestamp { secs: self.utc_secs, nanos: self.nanos }
    }

    /// The same instant as a naive UTC value; the offset is discarded.
    #[verifier::when_used_as_spec(spec_naive_utc)]
    pub fn naive_utc(&self) -> (r: NaiveTimestamp)
        ensures
            r == self.spec_naive_utc(),
    {
        NaiveTimestamp { secs: self.utc_secs, nanos: self.nanos }
    }
}

/// Each present instant of `t` as a naive UTC value.
pub open spec fn spec_naive_opt(t: Option<ZonedTimestamp>) -> Option<NaiveTimestamp> {
    match t {
        Some(z) => Some(z.spec_naive_utc()),
        None => None,
    }
}

/// `naive_utc` applied under an `Option`.
pub fn naive_opt(t: Option<ZonedTimestamp>) -> (r: Option<NaiveTimestamp>)
    ensures
        r == spec_naive_opt(t),
{
    match t {
        Some(z) => Some(z.naive_utc()),
        None => None,
    }
}

} // verus!

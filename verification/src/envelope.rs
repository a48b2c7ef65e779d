//! The persisted unit: a state value and the instant at which it was wrapped.

use vstd::prelude::*;

verus! {

/// Whether `seconds` since the Unix epoch, with `nanoseconds` into that
/// second, is an instant that the calendar library can represent.
pub uninterp spec fn representable(seconds: i64, nanoseconds: u32) -> bool;

/// `chrono::DateTime::from_timestamp`, asked only whether it yields a value.
#[verifier::external_body]
fn is_representable(seconds: i64, nanoseconds: u32) -> (accepted: bool)
    ensures
        accepted == representable(seconds, nanoseconds),
{
    chrono::DateTime::from_timestamp(seconds, nanoseconds).is_some()
}

/// `chrono::Utc::now`, read off with `DateTime::timestamp` and
/// `DateTime::timestamp_subsec_nanos`. The pair depends on the clock; it
/// always converts back with `DateTime::from_timestamp`. Like the outside
/// function, this panics if the clock is set before the Unix epoch.
#[verifier::external_body]
fn utc_now() -> (now: (i64, u32))
    ensures
        representable(now.0, now.1),
{
    let now = chrono::Utc::now();
    (now.timestamp(), now.timestamp_subsec_nanos())
}

/// An instant in UTC, counted from the Unix epoch. Every value is one that
/// the calendar library can represent.
#[derive(Debug, Clone, Copy)]
pub struct Timestamp {
    seconds: i64,
    nanoseconds: u32,
}

impl Timestamp {
    #[verifier::type_invariant]
    spec fn valid(self) -> bool {
        representable(self.seconds, self.nanoseconds)
    }

    /// Whole seconds since the Unix epoch, leap seconds not counted.
    pub closed spec fn spec_seconds(&self) -> i64 {
        self.seconds
    }

    /// Nanoseconds since the last whole second; above 999,999,999 only
    /// within a leap second.
    pub closed spec fn spec_nanoseconds(&self) -> u32 {
        self.nanoseconds
    }

    /// The instant `seconds` and `nanoseconds` after the Unix epoch, if there
    /// is one.
    pub fn new(seconds: i64, nanoseconds: u32) -> (made: Option<Timestamp>)
        ensures
            made is Some <==> representable(seconds, nanoseconds),
            made matches Some(instant) ==> instant.spec_seconds() == seconds
                && instant.spec_nanoseconds() == nanoseconds,
    {
        if is_representable(seconds, nanoseconds) {
            Some(Timestamp { seconds, nanoseconds })
        } else {
            None
        }
    }

    /// The current instant.
    pub fn now() -> (instant: Timestamp)
        ensures
            representable(instant.spec_seconds(), instant.spec_nanoseconds()),
    {
        let (seconds, nanoseconds) = utc_now();
        Timestamp { seconds, nanoseconds }
    }

    #[verifier::when_used_as_spec(spec_seconds)]
    pub fn seconds(&self) -> (seconds: i64)
        ensures
            seconds == self.spec_seconds(),
            representable(self.spec_seconds(), self.spec_nanoseconds()),
    {
        proof {
            use_type_invariant(self);
        }
        self.seconds
    }

    #[verifier::when_used_as_spec(spec_nanoseconds)]
    pub fn nanoseconds(&self) -> (nanoseconds: u32)
        ensures
            nanoseconds == self.spec_nanoseconds(),
            representable(self.spec_seconds(), self.spec_nanoseconds()),
    {
        proof {
            use_type_invariant(self);
        }
        self.nanoseconds
    }
}

/// A state value together with the instant at which it was wrapped.
#[derive(Debug)]
pub struct Abseil<T> {
    pub timestamp: Timestamp,
    pub state: T,
}

impl<T> Abseil<T> {
    /// Wraps `state`, stamped with the current instant.
    pub fn new(state: T) -> (envelope: Self)
        ensures
            envelope.state == state,
    {
        Abseil { timestamp: Timestamp::now(), state }
    }

    /// The state, without the envelope.
    pub fn into_inner(self) -> (state: T)
        ensures
            state == self.state,
    {
        self.state
    }
}

} // verus!

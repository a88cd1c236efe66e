//! Binding a time zone and a pattern to a type of timestamps.
//!
//! A binding is a type of its own that names the two; [`Localized`] wraps a
//! timestamp for one binding. Timestamps bound for different zones or
//! patterns are of different types, so one record can hold several kinds and
//! the adapters still need to be told nothing.
use core::cmp::Ordering;
use core::marker::PhantomData;
use vstd::prelude::*;
use vstd::std_specs::cmp::{PartialEqSpecImpl, PartialOrdSpecImpl};
use vstd::std_specs::convert::FromSpecImpl;
use crate::convert::answers;
use crate::layout::DEFAULT;
use crate::zoner::TimeZoner;

verus! {

/// A time zone and a pattern, fixed for a type.
///
/// The two spec functions stand for what the two functions return; an
/// implementation written outside verified code inherits the bodies given
/// here, which fix no value.
pub trait TimeZoneAndLayout {
    /// The name of the time zone.
    open spec fn zone() -> Seq<char> {
        arbitrary()
    }

    /// The pattern; empty for the engine's canonical rendering.
    open spec fn pattern() -> Seq<char> {
        arbitrary()
    }

    /// The name of the time zone.
    fn tz_name() -> (name: &'static str)
        ensures
            name@ == Self::zone(),
    ;

    /// The pattern; empty for the engine's canonical rendering.
    fn layout() -> (pattern: &'static str)
        ensures
            pattern@ == Self::pattern(),
    ;
}

/// The binding to UTC and to the engine's canonical rendering.
#[derive(Clone, Copy, Debug, PartialEq, Eq, PartialOrd, Ord, Hash)]
pub struct UtcDefault;

impl TimeZoneAndLayout for UtcDefault {
    open spec fn zone() -> Seq<char> {
        seq!['U', 'T', 'C']
    }

    open spec fn pattern() -> Seq<char> {
        Seq::empty()
    }

    fn tz_name() -> (name: &'static str) {
        proof {
            reveal_strlit("UTC");
            assert("UTC"@ =~= seq!['U', 'T', 'C']);
        }
        "UTC"
    }

    fn layout() -> (pattern: &'static str) {
        proof {
            reveal_strlit("");
            assert(DEFAULT@ =~= Seq::empty());
        }
        DEFAULT
    }
}

/// A timestamp bound to the time zone and the pattern of `B`.
///
/// It holds the instant, in milliseconds since the Unix epoch, and nothing
/// else: two values are equal, and ordered, as their instants are.
#[derive(Debug, Eq, Ord, Hash)]
pub struct Localized<B> {
    /// The instant, in milliseconds since the Unix epoch.
    pub millis: i64,
    /// The binding, which holds nothing.
    pub binding: PhantomData<B>,
}

impl<B> Clone for Localized<B> {
    fn clone(&self) -> (copy: Self)
        ensures
            copy == *self,
    {
        *self
    }
}

impl<B> Copy for Localized<B> {

}

impl<B> PartialEq for Localized<B> {
    fn eq(&self, other: &Self) -> (same: bool) {
        self.millis == other.millis
    }
}

impl<B> PartialEqSpecImpl for Localized<B> {
    open spec fn obeys_eq_spec() -> bool {
        true
    }

    open spec fn eq_spec(&self, other: &Self) -> bool {
        self.millis == other.millis
    }
}

impl<B> PartialOrd for Localized<B> {
    fn partial_cmp(&self, other: &Self) -> (order: Option<Ordering>) {
        if self.millis < other.millis {
            Some(Ordering::Less)
        } else if self.millis == other.millis {
            Some(Ordering::Equal)
        } else {
            Some(Ordering::Greater)
        }
    }
}

impl<B> PartialOrdSpecImpl for Localized<B> {
    open spec fn obeys_partial_cmp_spec() -> bool {
        true
    }

    open spec fn partial_cmp_spec(&self, other: &Self) -> Option<Ordering> {
        if self.millis < other.millis {
            Some(Ordering::Less)
        } else if self.millis == other.millis {
            Some(Ordering::Equal)
        } else {
            Some(Ordering::Greater)
        }
    }
}

impl<B> From<i64> for Localized<B> {
    fn from(unix_time_stamp: i64) -> (bound: Self) {
        Localized::from_millis(unix_time_stamp)
    }
}

impl<B> From<Localized<B>> for i64 {
    fn from(bound: Localized<B>) -> (unix_time_stamp: i64) {
        bound.millis
    }
}

impl<B> FromSpecImpl<Localized<B>> for i64 {
    open spec fn obeys_from_spec() -> bool {
        true
    }

    open spec fn from_spec(bound: Localized<B>) -> i64 {
        bound.millis
    }
}

impl<B> FromSpecImpl<i64> for Localized<B> {
    open spec fn obeys_from_spec() -> bool {
        true
    }

    open spec fn from_spec(unix_time_stamp: i64) -> Self {
        Localized { millis: unix_time_stamp, binding: PhantomData }
    }
}

impl<B> Localized<B> {
    /// The timestamp of the instant `unix_time_stamp`, in milliseconds since
    /// January 1, 1970 0:00:00 UTC.
    pub fn from_millis(unix_time_stamp: i64) -> (bound: Self)
        ensures
            bound.millis == unix_time_stamp,
    {
        Localized { millis: unix_time_stamp, binding: PhantomData }
    }

    /// The timestamp of the current instant. Nothing is known of it but
    /// that the clock of the machine gave it.
    pub fn now() -> (bound: Self) {
        Localized::from_millis(clock_millis())
    }

    /// The instant, in milliseconds since January 1, 1970 0:00:00 UTC.
    pub fn timestamp_millis(&self) -> (millis: i64)
        ensures
            millis == self.millis,
    {
        self.millis
    }
}

/// Reads the clock with `bson::DateTime::now`, in milliseconds since the
/// Unix epoch.
///
/// Trusted, and nothing is claimed: the result is the clock's.
#[verifier::external_body]
fn clock_millis() -> (millis: i64) {
    bson::DateTime::now().timestamp_millis()
}

impl<B: TimeZoneAndLayout> TimeZoner for Localized<B> {
    open spec fn zone(&self) -> Seq<char> {
        B::zone()
    }

    open spec fn millis(&self) -> i64 {
        self.millis
    }

    open spec fn pattern(&self) -> Seq<char> {
        B::pattern()
    }

    fn tz_name(&self) -> (name: &str) {
        B::tz_name()
    }

    fn timestamp(&self) -> (millis: i64) {
        self.timestamp_millis()
    }

    fn layout(&self) -> (pattern: &str) {
        B::layout()
    }
}

/// The zone of a timestamp bound to UTC is always found: the engine knows
/// UTC whatever the zone files of the machine hold.
pub proof fn utc_is_always_found(
    value: Localized<UtcDefault>,
    found: Result<gostd_time::Location, Seq<char>>,
)
    requires
        answers(value.zone(), found),
    ensures
        found is Ok,
{
}

} // verus!

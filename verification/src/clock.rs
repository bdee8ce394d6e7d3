//! Points in time and the whole seconds between them.
//!
//! A [`Timestamp`] holds a UTC instant as plain integers. The calendar
//! arithmetic itself is done by `chrono`, behind the two trusted functions of
//! this module.

use vstd::prelude::*;

verus! {

/// Seconds since the Unix epoch of the earliest instant `chrono` represents.
pub const MIN_SECS: i64 = -8_334_601_228_800;

/// Seconds since the Unix epoch of the last second `chrono` represents.
pub const MAX_SECS: i64 = 8_210_266_876_799;

/// Nanoseconds in one second.
pub const NANOS_PER_SEC: u32 = 1_000_000_000;

/// Whether `secs` and `nanos` name an instant that a [`Timestamp`] can hold.
pub open spec fn in_range(secs: int, nanos: int) -> bool {
    MIN_SECS <= secs <= MAX_SECS && 0 <= nanos < NANOS_PER_SEC
}

/// A UTC instant: whole seconds since the Unix epoch and the nanoseconds
/// into that second.
#[derive(Clone, Copy, Debug)]
pub struct Timestamp {
    secs: i64,
    nanos: u32,
}

/// Whole seconds from `from` to `to`, both in nanoseconds since the epoch,
/// rounded toward zero.
pub open spec fn whole_seconds(from: int, to: int) -> int {
    let d = to - from;
    if d >= 0 {
        d / (NANOS_PER_SEC as int)
    } else {
        -((-d) / (NANOS_PER_SEC as int))
    }
}

/// The current time as seconds since the epoch and nanoseconds.
///
/// Trusted: calls `chrono::Utc::now`, then `DateTime::timestamp` and
/// `DateTime::timestamp_subsec_nanos`. Nothing is claimed of which instant
/// comes back, only that it lies in the range `chrono` can represent and is
/// not inside a leap second, which holds of every value that `Utc::now`
/// builds from the system clock. `Utc::now` panics where the system clock
/// stands before 1970; nothing handed to this function decides that.
#[verifier::external_body]
fn system_now() -> (t: (i64, u32))
    ensures
        in_range(t.0 as int, t.1 as int),
{
    let now = chrono::Utc::now();
    (now.timestamp(), now.timestamp_subsec_nanos())
}

/// Whole seconds from one instant to another.
///
/// Trusted: builds both instants with `chrono::DateTime::from_timestamp`,
/// subtracts them with `DateTime::signed_duration_since` and reads the result
/// with `TimeDelta::num_seconds`, which returns the number of whole seconds
/// in the difference, rounded toward zero. The `requires` keeps both instants
/// inside the range for which `from_timestamp` returns a value.
#[verifier::external_body]
fn chrono_seconds_between(from_secs: i64, from_nanos: u32, to_secs: i64, to_nanos: u32) -> (d: i64)
    requires
        in_range(from_secs as int, from_nanos as int),
        in_range(to_secs as int, to_nanos as int),
    ensures
        d == whole_seconds(
            from_secs * NANOS_PER_SEC + from_nanos,
            to_secs * NANOS_PER_SEC + to_nanos,
        ),
{
    let from = chrono::DateTime::from_timestamp(from_secs, from_nanos).unwrap();
    let to = chrono::DateTime::from_timestamp(to_secs, to_nanos).unwrap();
    to.signed_duration_since(from).num_seconds()
}

impl Timestamp {
    #[verifier::type_invariant]
    spec fn valid(self) -> bool {
        in_range(self.secs as int, self.nanos as int)
    }

    /// Whole seconds since the Unix epoch.
    pub closed spec fn spec_secs(self) -> int {
        self.secs as int
    }

    /// Nanoseconds into the second.
    pub closed spec fn spec_nanos(self) -> int {
        self.nanos as int
    }

    /// Nanoseconds since the Unix epoch.
    pub open spec fn epoch_nanos(self) -> int {
        self.spec_secs() * (NANOS_PER_SEC as int) + self.spec_nanos()
    }

    /// The instant `nanos` nanoseconds after `secs` seconds since the epoch,
    /// or `None` when that is outside the supported range.
    pub fn new(secs: i64, nanos: u32) -> (t: Option<Timestamp>)
        ensures
            t is Some <==> in_range(secs as int, nanos as int),
            t matches Some(ts) ==> ts.spec_secs() == secs && ts.spec_nanos() == nanos,
    {
        if MIN_SECS <= secs && secs <= MAX_SECS && nanos < NANOS_PER_SEC {
            Some(Timestamp { secs, nanos })
        } else {
            None
        }
    }

    /// The instant nearest to `nanos` nanoseconds after `secs` seconds since
    /// the epoch that can be held: seconds beyond the supported range count as
    /// its ends, and nanoseconds beyond a second (a leap second) as the last
    /// nanosecond of the second.
    pub fn clamped(secs: i64, nanos: u32) -> (t: Timestamp)
        ensures
            t.spec_secs() == (if secs < MIN_SECS {
                MIN_SECS
            } else if secs > MAX_SECS {
                MAX_SECS
            } else {
                secs
            }),
            t.spec_nanos() == (if nanos < NANOS_PER_SEC {
                nanos
            } else {
                (NANOS_PER_SEC - 1) as u32
            }),
    {
        let secs = if secs < MIN_SECS {
            MIN_SECS
        } else if secs > MAX_SECS {
            MAX_SECS
        } else {
            secs
        };
        let nanos = if nanos < NANOS_PER_SEC {
            nanos
        } else {
            NANOS_PER_SEC - 1
        };
        Timestamp { secs, nanos }
    }

    /// The current time by the system clock: an instant of the supported range.
    pub fn now() -> (t: Timestamp)
        ensures
            in_range(t.spec_secs(), t.spec_nanos()),
    {
        let (secs, nanos) = system_now();
        Timestamp { secs, nanos }
    }

    /// Whole seconds since the Unix epoch.
    pub fn secs(&self) -> (s: i64)
        ensures
            s == self.spec_secs(),
            MIN_SECS <= s <= MAX_SECS,
    {
        proof {
            use_type_invariant(self);
        }
        self.secs
    }

    /// Nanoseconds into the second.
    pub fn nanos(&self) -> (n: u32)
        ensures
            n == self.spec_nanos(),
            n < NANOS_PER_SEC,
    {
        proof {
            use_type_invariant(self);
        }
        self.nanos
    }

    /// Whole seconds elapsed from `earlier` to `self`, rounded toward zero;
    /// negative when `self` lies before `earlier`.
    pub fn seconds_since(&self, earlier: &Timestamp) -> (d: i64)
        ensures
            d == whole_seconds(earlier.epoch_nanos(), self.epoch_nanos()),
    {
        proof {
            use_type_invariant(self);
            use_type_invariant(earlier);
        }
        chrono_seconds_between(earlier.secs, earlier.nanos, self.secs, self.nanos)
    }
}

} // verus!

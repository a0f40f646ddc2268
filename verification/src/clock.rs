//! Points in time, and the whole days between them, as chrono counts them.

use chrono::DateTime;
use vstd::prelude::*;

verus! {

/// Whether `chrono::DateTime::from_timestamp(secs, nanos)` accepts the
/// seconds since 1970-01-01 UTC and the nanoseconds into the second.
pub uninterp spec fn chrono_accepts(secs: i64, nanos: u32) -> bool;

/// The whole days, rounded toward zero, from the instant `(earlier_secs,
/// earlier_nanos)` to the instant `(later_secs, later_nanos)`, as chrono's
/// `signed_duration_since` and `num_days` compute them.
pub uninterp spec fn chrono_whole_days(
    later_secs: i64,
    later_nanos: u32,
    earlier_secs: i64,
    earlier_nanos: u32,
) -> i64;

/// Calls `chrono::DateTime::from_timestamp` and reports whether it returns a
/// time; the contract names that outcome, a function of the two arguments.
#[verifier::external_body]
fn accepts_timestamp(secs: i64, nanos: u32) -> (r: bool)
    ensures
        r == chrono_accepts(secs, nanos),
{
    DateTime::from_timestamp(secs, nanos).is_some()
}

/// Calls `chrono::DateTime::signed_duration_since` on the two times and
/// `num_days` on the duration; the contract names the result, a function of
/// the four arguments. `from_timestamp` succeeds on both, as `requires` says.
#[verifier::external_body]
fn whole_days_between(later_secs: i64, later_nanos: u32, earlier_secs: i64, earlier_nanos: u32) -> (r: i64)
    requires
        chrono_accepts(later_secs, later_nanos),
        chrono_accepts(earlier_secs, earlier_nanos),
    ensures
        r == chrono_whole_days(later_secs, later_nanos, earlier_secs, earlier_nanos),
{
    let later = DateTime::from_timestamp(later_secs, later_nanos).unwrap();
    let earlier = DateTime::from_timestamp(earlier_secs, earlier_nanos).unwrap();
    later.signed_duration_since(earlier).num_days()
}

/// A point in time: seconds since 1970-01-01 UTC and nanoseconds into the
/// second, always a time that chrono represents.
#[derive(Clone, Copy, Debug)]
pub struct UtcTime {
    secs: i64,
    nanos: u32,
}

impl UtcTime {
    #[verifier::type_invariant]
    closed spec fn inv(self) -> bool {
        chrono_accepts(self.secs, self.nanos)
    }

    /// The seconds since 1970-01-01 UTC.
    pub closed spec fn spec_secs(self) -> i64 {
        self.secs
    }

    /// The nanoseconds into the second.
    pub closed spec fn spec_nanos(self) -> u32 {
        self.nanos
    }

    /// The time `secs` seconds after 1970-01-01 UTC plus `nanos`
    /// nanoseconds, where chrono accepts it.
    pub fn from_timestamp(secs: i64, nanos: u32) -> (r: Option<UtcTime>)
        ensures
            r is Some <==> chrono_accepts(secs, nanos),
            r matches Some(t) ==> t.spec_secs() == secs && t.spec_nanos() == nanos,
    {
        if accepts_timestamp(secs, nanos) {
            Some(UtcTime { secs, nanos })
        } else {
            None
        }
    }

    /// The seconds since 1970-01-01 UTC.
    pub fn secs(&self) -> (r: i64)
        ensures
            r == self.spec_secs(),
    {
        self.secs
    }

    /// The nanoseconds into the second.
    pub fn nanos(&self) -> (r: u32)
        ensures
            r == self.spec_nanos(),
    {
        self.nanos
    }

    /// The whole days, rounded toward zero, from `earlier` to `self`.
    pub fn days_since(&self, earlier: &UtcTime) -> (r: i64)
        ensures
            r == chrono_whole_days(
                self.spec_secs(),
                self.spec_nanos(),
                earlier.spec_secs(),
                earlier.spec_nanos(),
            ),
    {
        proof {
            use_type_invariant(self);
            use_type_invariant(earlier);
        }
        whole_days_between(self.secs, self.nanos, earlier.secs, earlier.nanos)
    }
}

} // verus!

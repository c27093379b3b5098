//! Offsets into media sources: signed spans of time, with nanosecond
//! precision, as far as `i64::MAX` milliseconds either way.
use vstd::prelude::*;
use std::time::Duration;
use crate::misc_types::Position;

verus! {

/// The longest offset, either way, in nanoseconds: `i64::MAX`
/// milliseconds.
pub open spec fn max_offset_nanos() -> int {
    9223372036854775807int * 1000000int
}

/// The whole nanoseconds a duration holds, as `Duration::as_nanos` gives
/// them: a value of the duration alone.
pub uninterp spec fn duration_nanos(time: Duration) -> u128;

/// `Duration::as_nanos`: the whole nanoseconds the duration holds, named
/// by `duration_nanos`; its seconds are a `u64`, so there are fewer than
/// 2^64 seconds of them.
#[verifier::external_body]
fn duration_as_nanos(time: &Duration) -> (r: u128)
    ensures
        r == duration_nanos(*time),
        r < 18446744073709551616int * 1000000000int,
{
    time.as_nanos()
}

/// `Duration::new`: `secs` seconds and `nanos` nanoseconds. With less than
/// a second of nanoseconds nothing carries into the seconds, so the call
/// cannot overflow, and the duration holds `secs * 10^9 + nanos`
/// nanoseconds.
#[verifier::external_body]
fn duration_new(secs: u64, nanos: u32) -> (r: Duration)
    requires
        nanos < 1000000000,
    ensures
        duration_nanos(r) == secs * 1000000000 + nanos,
{
    Duration::new(secs, nanos)
}

/// Offset into a media source; unlike a [Position], it can be negative.
///
/// Held as whole nanoseconds, never more than `i64::MAX` milliseconds
/// either way. Offsets compare by their length of time.
#[derive(Debug, PartialEq, PartialOrd, Ord, Eq, Hash, Copy, Clone, Structural)]
pub struct SourceOffset {
    nanos: i128,
}

impl SourceOffset {
    #[verifier::type_invariant]
    spec fn within_range(self) -> bool {
        -max_offset_nanos() <= self.nanos <= max_offset_nanos()
    }

    /// The offset in nanoseconds.
    pub closed spec fn spec_nanos(self) -> int {
        self.nanos as int
    }

    /// The offset of `nanos` nanoseconds; `None` beyond `i64::MAX`
    /// milliseconds either way.
    pub fn from_nanos(nanos: i128) -> (r: Option<Self>)
        ensures
            r is Some <==> -max_offset_nanos() <= nanos <= max_offset_nanos(),
            r matches Some(o) ==> o.spec_nanos() == nanos,
    {
        if -9223372036854775807000000i128 <= nanos && nanos <= 9223372036854775807000000i128 {
            Some(SourceOffset { nanos })
        } else {
            None
        }
    }

    /// The offset in nanoseconds.
    pub fn get(&self) -> (r: i128)
        ensures
            r == self.spec_nanos(),
            -max_offset_nanos() <= r <= max_offset_nanos(),
    {
        proof {
            use_type_invariant(self);
        }
        self.nanos
    }

    /// The offset of a duration, forward; the duration must be within
    /// range.
    pub fn from_duration(value: Duration) -> (r: Self)
        requires
            duration_nanos(value) <= max_offset_nanos(),
        ensures
            r.spec_nanos() == duration_nanos(value),
    {
        let n = duration_as_nanos(&value);
        SourceOffset { nanos: n as i128 }
    }

    /// The offset of a duration, forward; `None` where the duration is
    /// longer than any offset.
    pub fn checked_from_duration(value: Duration) -> (r: Option<Self>)
        ensures
            r is Some <==> duration_nanos(value) <= max_offset_nanos(),
            r matches Some(o) ==> o.spec_nanos() == duration_nanos(value),
    {
        let n = duration_as_nanos(&value);
        if n <= 9223372036854775807000000u128 {
            Some(SourceOffset { nanos: n as i128 })
        } else {
            None
        }
    }

    /// The offset of a project position, forward from the source's start;
    /// the position must be within range.
    pub fn from_position(value: Position) -> (r: Self)
        requires
            duration_nanos(value.spec_duration()) <= max_offset_nanos(),
        ensures
            r.spec_nanos() == duration_nanos(value.spec_duration()),
    {
        Self::from_duration(value.as_duration())
    }

    /// The length of the offset, whichever its direction.
    pub fn as_duration(&self) -> (r: Duration)
        ensures
            duration_nanos(r) == (if self.spec_nanos() < 0 {
                -self.spec_nanos()
            } else {
                self.spec_nanos()
            }),
    {
        proof {
            use_type_invariant(self);
        }
        let n: i128 = if self.nanos < 0 {
            -self.nanos
        } else {
            self.nanos
        };
        let secs: u64 = (n / 1000000000) as u64;
        let rest: u32 = (n % 1000000000) as u32;
        duration_new(secs, rest)
    }

    /// The position as far from the project start as the offset is long,
    /// whichever its direction.
    pub fn as_position(&self) -> (r: Position)
        ensures
            duration_nanos(r.spec_duration()) == (if self.spec_nanos() < 0 {
                -self.spec_nanos()
            } else {
                self.spec_nanos()
            }),
    {
        Position::new(self.as_duration())
    }

    /// The sum of two offsets, which must be within range.
    pub fn add_offset(self, rhs: SourceOffset) -> (r: Self)
        requires
            -max_offset_nanos() <= self.spec_nanos() + rhs.spec_nanos() <= max_offset_nanos(),
        ensures
            r.spec_nanos() == self.spec_nanos() + rhs.spec_nanos(),
    {
        proof {
            use_type_invariant(self);
            use_type_invariant(rhs);
        }
        SourceOffset { nanos: self.nanos + rhs.nanos }
    }

    /// The difference of two offsets, which must be within range.
    pub fn sub_offset(self, rhs: SourceOffset) -> (r: Self)
        requires
            -max_offset_nanos() <= self.spec_nanos() - rhs.spec_nanos() <= max_offset_nanos(),
        ensures
            r.spec_nanos() == self.spec_nanos() - rhs.spec_nanos(),
    {
        proof {
            use_type_invariant(self);
            use_type_invariant(rhs);
        }
        SourceOffset { nanos: self.nanos - rhs.nanos }
    }

    /// The offset moved forward by a duration; the duration and the sum must
    /// be within range.
    pub fn add_duration(self, rhs: Duration) -> (r: Self)
        requires
            duration_nanos(rhs) <= max_offset_nanos(),
            self.spec_nanos() + duration_nanos(rhs) <= max_offset_nanos(),
        ensures
            r.spec_nanos() == self.spec_nanos() + duration_nanos(rhs),
    {
        proof {
            use_type_invariant(self);
        }
        self.add_offset(Self::from_duration(rhs))
    }

    /// The offset moved back by a duration; the duration and the difference
    /// must be within range.
    pub fn sub_duration(self, rhs: Duration) -> (r: Self)
        requires
            duration_nanos(rhs) <= max_offset_nanos(),
            -max_offset_nanos() <= self.spec_nanos() - duration_nanos(rhs),
        ensures
            r.spec_nanos() == self.spec_nanos() - duration_nanos(rhs),
    {
        proof {
            use_type_invariant(self);
        }
        self.sub_offset(Self::from_duration(rhs))
    }
}

} // verus!

//! Result conversion for engine status codes, and the duration type used for
//! every timestamp and latency in the crate.
//!
//! The engine reports time as seconds since an engine-defined epoch.  Inside
//! the verified core a point in time or a span of time is an exact count of
//! nanoseconds, held as whole seconds plus a sub-second remainder; the lossy
//! step between the engine's floating-point seconds and whole nanoseconds is
//! left to unverified callers.

use vstd::prelude::*;

use crate::pa::{error_from_code, PaError, PaResult};
use vstd::arithmetic::div_mod::{lemma_fundamental_div_mod, lemma_fundamental_div_mod_converse};

verus! {

/// Nanoseconds in one second: the base that splits a total count of
/// nanoseconds into [`Duration`]'s two fields.
pub const NANOS_PER_SECOND: u64 = 1_000_000_000;

/// Maps an engine status code to a result: the success code 0 becomes
/// `Ok(())`, every other code the error it denotes.
pub fn to_pa_result(code: i32) -> (r: PaResult)
    ensures
        code == 0 ==> r == PaResult::Ok(()),
        code != 0 ==> r == PaResult::Err(error_from_code(code as int)),
{
    if code == 0 {
        return Ok(());
    }
    Err(PaError::from_i32(code))
}

/// A non-negative span of time: whole seconds plus a sub-second remainder in
/// nanoseconds.  A well-formed value keeps the remainder below one second.
#[derive(Clone, Copy, Debug, PartialEq, Eq, Structural)]
pub struct Duration {
    /// Whole seconds.
    pub seconds: u64,
    /// Nanoseconds beyond the whole seconds; below [`NANOS_PER_SECOND`] in a
    /// well-formed value.
    pub nanoseconds: u32,
}

impl Duration {
    /// A well-formed duration keeps its sub-second remainder below one second,
    /// so that each span of time has exactly one representation.
    pub open spec fn wf(self) -> bool {
        self.nanoseconds < NANOS_PER_SECOND
    }

    /// The whole span as a count of nanoseconds.
    pub open spec fn spec_total_nanos(self) -> int {
        self.seconds * NANOS_PER_SECOND + self.nanoseconds
    }

    /// The duration that a count of nanoseconds denotes.
    pub open spec fn spec_from_nanos(total: int) -> Duration {
        Duration {
            seconds: (total / (NANOS_PER_SECOND as int)) as u64,
            nanoseconds: (total % (NANOS_PER_SECOND as int)) as u32,
        }
    }

    /// The zero-length duration.
    pub fn zero() -> (d: Duration)
        ensures
            d.wf(),
            d.spec_total_nanos() == 0,
            d == (Duration { seconds: 0u64, nanoseconds: 0u32 }),
    {
        Duration { seconds: 0, nanoseconds: 0 }
    }

    /// Splits a count of nanoseconds into whole seconds and the sub-second
    /// remainder.
    pub fn from_nanos(total: u64) -> (d: Duration)
        ensures
            d.wf(),
            d == Duration::spec_from_nanos(total as int),
            d.spec_total_nanos() == total,
    {
        let d = Duration {
            seconds: total / NANOS_PER_SECOND,
            nanoseconds: (total % NANOS_PER_SECOND) as u32,
        };
        proof {
            lemma_fundamental_div_mod(total as int, NANOS_PER_SECOND as int);
        }
        d
    }

    /// The whole span as a count of nanoseconds.
    pub fn total_nanos(&self) -> (total: u64)
        requires
            self.spec_total_nanos() <= u64::MAX,
        ensures
            total == self.spec_total_nanos(),
    {
        self.seconds * NANOS_PER_SECOND + self.nanoseconds as u64
    }
}

/// Splitting a count of nanoseconds into seconds and remainder loses nothing:
/// the total of the split value is the count itself, and the split value is
/// well formed.
pub proof fn lemma_nanos_to_duration_round_trip(total: u64)
    ensures
        Duration::spec_from_nanos(total as int).wf(),
        Duration::spec_from_nanos(total as int).spec_total_nanos() == total,
{
    lemma_fundamental_div_mod(total as int, NANOS_PER_SECOND as int);
}

/// A well-formed duration is recovered exactly from its own total count of
/// nanoseconds: the split-and-total round trip is the identity in this
/// direction as well.
pub proof fn lemma_duration_to_nanos_round_trip(d: Duration)
    requires
        d.wf(),
    ensures
        Duration::spec_from_nanos(d.spec_total_nanos()) == d,
{
    lemma_fundamental_div_mod_converse(
        d.spec_total_nanos(),
        NANOS_PER_SECOND as int,
        d.seconds as int,
        d.nanoseconds as int,
    );
}

} // verus!

//! The clock that the age of a command is measured with.

use vstd::prelude::*;

verus! {

/// A moment on the monotonic clock.
#[verifier::external_type_specification]
#[verifier::external_body]
pub struct ExInstant(tokio::time::Instant);

/// `tokio::time::Instant::now`: the moment of the call. Which one it is is left
/// open.
#[verifier::external_body]
fn current_instant() -> (r: tokio::time::Instant) {
    tokio::time::Instant::now()
}

/// The nanoseconds from one moment to another.
pub uninterp spec fn nanos_from_to(
    start: tokio::time::Instant,
    moment: tokio::time::Instant,
) -> u128;

/// `tokio::time::Instant::duration_since`: the time from one moment to another,
/// in nanoseconds. It depends on the two moments alone.
#[verifier::external_body]
fn nanos_between(start: &tokio::time::Instant, moment: &tokio::time::Instant) -> (r: u128)
    ensures
        r == nanos_from_to(*start, *moment),
{
    moment.duration_since(*start).as_nanos()
}

/// A clock that counts the nanoseconds since it was started.
#[derive(Debug, Clone, Copy)]
pub struct Clock {
    start: tokio::time::Instant,
}

impl Clock {
    /// Whether the clock can show a reading: there is a moment so many
    /// nanoseconds after the one at which the clock was started.
    pub closed spec fn shows(self, reading: u128) -> bool {
        exists|moment: tokio::time::Instant| reading == #[trigger] nanos_from_to(self.start, moment)
    }

    /// Starts a clock at the moment of the call.
    pub(crate) fn start() -> Self {
        Clock { start: current_instant() }
    }

    /// The nanoseconds since the clock was started. At which moment the clock
    /// is read is left open.
    pub(crate) fn now(&self) -> (r: u128)
        ensures
            self.shows(r),
    {
        let moment = current_instant();
        nanos_between(&self.start, &moment)
    }
}

} // verus!

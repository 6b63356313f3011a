use vstd::prelude::*;

verus! {

#[verifier::external_type_specification]
#[verifier::external_body]
pub struct ExInstant(instant::Instant);

/// Relies on `instant::Instant::now`: the current reading of a monotonic clock.
#[verifier::external_body]
fn instant_now() -> instant::Instant {
    instant::Instant::now()
}

/// Relies on `instant::Instant::elapsed`: the time since `start`, in whole
/// milliseconds.
#[verifier::external_body]
fn millis_since(start: &instant::Instant) -> u128 {
    start.elapsed().as_millis()
}

/// Session time in milliseconds, counted from the clock's start.
pub struct SessionClock {
    start: instant::Instant,
}

impl SessionClock {
    /// A clock that reads zero now.
    pub fn start() -> SessionClock {
        SessionClock { start: instant_now() }
    }

    /// Milliseconds since the clock started, saturating at `u64::MAX`.
    pub fn now_ms(&self) -> u64 {
        let ms = millis_since(&self.start);
        if ms > u64::MAX as u128 {
            u64::MAX
        } else {
            ms as u64
        }
    }
}

} // verus!

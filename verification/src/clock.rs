//! The clocks, and what is derived from them: entropy seeds from the
//! monotonic clock and wall-clock seeded values.
//!
//! Both clocks are external collaborators: nothing is assumed about the
//! readings they supply beyond their types. Everything computed from a
//! reading is a verified function of that reading.

use vstd::prelude::*;
use crate::seed_expand::decimal_digits;
use crate::seed_expand::random_seed;

verus! {

/// Relies on std::time::Instant as an opaque monotonic-clock reading.
#[verifier::external_type_specification]
#[verifier::external_body]
pub struct ExInstant(std::time::Instant);

/// Relies on std::time::SystemTime as an opaque wall-clock reading.
#[verifier::external_type_specification]
#[verifier::external_body]
pub struct ExSystemTime(std::time::SystemTime);

/// Relies on std::time::SystemTimeError, the wall clock's report that the
/// compared reading lies in its future.
#[verifier::external_type_specification]
#[verifier::external_body]
pub struct ExSystemTimeError(std::time::SystemTimeError);

/// Relies on std::time::Instant::now for the present monotonic reading;
/// nothing is promised of its value.
pub assume_specification[ std::time::Instant::now ]() -> std::time::Instant;

/// Relies on std::time::Instant::elapsed for the span from a reading to
/// the present; nothing is promised of its value.
pub assume_specification[ std::time::Instant::elapsed ](
    t: &std::time::Instant,
) -> std::time::Duration;

/// Relies on std::time::Duration::as_nanos for the span's whole count of
/// nanoseconds.
pub assume_specification[ std::time::Duration::as_nanos ](d: &std::time::Duration) -> u128;

/// Relies on std::time::Duration::as_secs for the span's whole count of
/// seconds.
pub assume_specification[ std::time::Duration::as_secs ](d: &std::time::Duration) -> u64;

/// Relies on std::time::SystemTime::now for the present wall-clock reading;
/// nothing is promised of its value.
pub assume_specification[ std::time::SystemTime::now ]() -> std::time::SystemTime;

/// Relies on std::time::SystemTime::duration_since: the span from an
/// earlier reading, or an error when that reading lies in the future.
pub assume_specification[ std::time::SystemTime::duration_since ](
    t: &std::time::SystemTime,
    earlier: std::time::SystemTime,
) -> Result<std::time::Duration, std::time::SystemTimeError>;

/// Relies on std::time::UNIX_EPOCH: the fixed reference reading of the
/// wall clock.
#[verifier::external_body]
fn unix_epoch() -> std::time::SystemTime {
    std::time::UNIX_EPOCH
}

/// How many nanoseconds a fresh timer blocks for before it is handed out.
pub const PAUSE_NANOS: u128 = 100;

/// A cap on the pause's clock polls, so that the pause provably ends even
/// if the monotonic clock were to stand still.
pub const PAUSE_SPIN_CAP: u64 = 1000000;

/// A monotonic timer: ticks count the nanoseconds since its creation.
pub struct Time {
    time_from_create: std::time::Instant,
}

impl Time {
    /// Starts a timer at the present instant, then blocks briefly — on the
    /// order of a hundred nanoseconds — so that a later tick reading
    /// differs from the creation instant.
    pub fn new() -> (t: Time) {
        let t = Time { time_from_create: std::time::Instant::now() };
        let mut waited: u128 = t.get_tick();
        let mut spins: u64 = 0;
        while waited < PAUSE_NANOS && spins < PAUSE_SPIN_CAP
            invariant
                spins <= PAUSE_SPIN_CAP,
            decreases PAUSE_SPIN_CAP - spins,
        {
            waited = t.get_tick();
            spins = spins + 1;
        }
        t
    }

    /// The nanoseconds elapsed since the timer's creation, by the
    /// monotonic clock; nothing is promised of the reading's value.
    pub fn get_tick(&self) -> u128 {
        let elapsed = self.time_from_create.elapsed();
        elapsed.as_nanos()
    }
}

/// A 64-bit value reinterpreted as a signed count, two's complement.
pub open spec fn as_signed(u: u64) -> i64 {
    if u < 0x8000_0000_0000_0000 {
        u as i64
    } else {
        (u - 0x1_0000_0000_0000_0000) as i64
    }
}

/// The seed derived from a tick count: the tick taken as a signed 64-bit
/// value, squared, and scaled by ten, all with wrapping arithmetic.
pub open spec fn spec_seed_from_tick(tick: u128) -> i64 {
    let low = (tick % 0x1_0000_0000_0000_0000) as u64;
    as_signed(low.wrapping_mul(low).wrapping_mul(10))
}

/// Derives a seed value from a tick count, exactly as
/// [`spec_seed_from_tick`] states. Injectable for deterministic tests:
/// every seed consumer can be driven from a chosen tick sequence.
pub fn seed_from_tick(tick: u128) -> (s: i64)
    ensures
        s == spec_seed_from_tick(tick),
{
    let low: u64 = (tick % 0x1_0000_0000_0000_0000u128) as u64;
    let scaled: u64 = low.wrapping_mul(low).wrapping_mul(10);
    if scaled < 0x8000_0000_0000_0000u64 {
        scaled as i64
    } else {
        ((scaled as i128) - 0x1_0000_0000_0000_0000i128) as i64
    }
}

/// Combines the monotonic clock with a squaring and scaling transform to
/// produce seeds when no external seed is supplied.
pub struct EntropySeedFactory;

impl EntropySeedFactory {
    /// Derives a seed from a fresh timer's tick reading. The reading is up
    /// to the clock; whatever it is, the seed is its squared, ten-scaled
    /// transform.
    pub fn create_seed() -> (s: i64)
        ensures
            exists|tick: u128| s == spec_seed_from_tick(tick),
    {
        let timer = Time::new();
        let tick: u128 = timer.get_tick();
        let s: i64 = seed_from_tick(tick);
        assert(s == spec_seed_from_tick(tick));
        s
    }
}

/// Rejection of a wall-clock reading that lies before the epoch: an
/// unrecoverable host-environment fault, which callers are expected to
/// treat as fatal.
#[derive(Clone, Copy, Debug, PartialEq, Eq)]
pub struct ClockBeforeEpoch;

/// The value produced for a given wall-clock reading: the seconds are
/// rendered as text and offered to seed expansion, and since the expansion
/// yields nothing, the seconds themselves are the value.
pub fn random_from_secs(secs: u64) -> (r: u64)
    ensures
        r == secs,
{
    let text: Vec<u8> = decimal_digits(secs);
    match random_seed(text.as_slice()) {
        Some(v) => v,
        None => secs,
    }
}

/// Yields a value seeded from the wall clock's seconds since the epoch,
/// as [`random_from_secs`] states for whatever reading the clock supplies.
/// Fails exactly when the wall clock reports a time before the epoch.
pub fn random() -> (r: Result<u64, ClockBeforeEpoch>) {
    let now = std::time::SystemTime::now();
    match now.duration_since(unix_epoch()) {
        Ok(span) => Ok(random_from_secs(span.as_secs())),
        Err(_) => Err(ClockBeforeEpoch),
    }
}

} // verus!

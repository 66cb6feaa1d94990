use vstd::prelude::*;

verus! {

/// The number of nanoseconds in a second.
pub const NANOS_PER_SECOND: u32 = 1_000_000_000;

/// Relies on std's `SystemTime::elapsed`, measured from `UNIX_EPOCH`: the
/// whole seconds since the epoch and the nanoseconds past the last whole
/// second, which `Duration::subsec_nanos` documents as under one billion.
/// A clock set before the epoch reads as zero.
#[verifier::external_body]
fn clock_reading() -> (r: (u64, u32))
    ensures
        r.1 < NANOS_PER_SECOND,
{
    match std::time::UNIX_EPOCH.elapsed() {
        Ok(d) => (d.as_secs(), d.subsec_nanos()),
        Err(_) => (0, 0),
    }
}

/// The current Unix time in seconds.
pub fn unix_now() -> (r: u64) {
    let (secs, _) = clock_reading();
    secs
}

/// The nanoseconds past the current second: a cheap source of variety.
pub fn chrono_nanos() -> (r: u32)
    ensures
        r < NANOS_PER_SECOND,
{
    let (_, nanos) = clock_reading();
    nanos
}

/// The hour of day, 0 to 23, at Unix time `secs`, on the agent's home clock
/// of UTC+8.
pub open spec fn hour_at(secs: u64) -> u32 {
    ((secs / 3600 + 8) % 24) as u32
}

pub fn hour_of_day(secs: u64) -> (r: u32)
    ensures
        r == hour_at(secs),
        r < 24,
{
    ((secs / 3600 + 8) % 24) as u32
}

/// The hour of day now, on the agent's home clock.
pub fn chrono_hour() -> (r: u32)
    ensures
        r < 24,
{
    hour_of_day(unix_now())
}

} // verus!

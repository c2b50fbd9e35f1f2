//! Idle unloading of a loaded transcriber in a long-running host.

use vstd::prelude::*;

verus! {

/// Seconds of inactivity after which an idle transcriber is unloaded.
pub const IDLE_UNLOAD_SECS: u64 = 300;

#[verifier::external_type_specification]
#[verifier::external_body]
pub struct ExSystemTime(std::time::SystemTime);

/// Calls `std::time::SystemTime::now()`. Nothing is claimed of the result.
#[verifier::external_body]
fn system_time_now() -> std::time::SystemTime {
    std::time::SystemTime::now()
}

/// Calls `SystemTime::duration_since(UNIX_EPOCH)`, reading an error (a time
/// before the epoch) as `None`. Nothing is claimed of the result.
#[verifier::external_body]
fn since_unix_epoch(t: std::time::SystemTime) -> Option<core::time::Duration> {
    t.duration_since(std::time::UNIX_EPOCH).ok()
}

/// Calls `Duration::as_secs`. Nothing is claimed of the result.
#[verifier::external_body]
fn whole_secs(d: core::time::Duration) -> u64 {
    d.as_secs()
}

/// A timestamp from a clock reading: the whole seconds since the Unix epoch
/// when the reading is not before the epoch, and 0 when it is (`None`).
pub fn timestamp_or_zero(secs_since_epoch: Option<u64>) -> (r: u64)
    ensures
        r == match secs_since_epoch {
            Some(s) => s,
            None => 0,
        },
{
    match secs_since_epoch {
        Some(s) => s,
        None => 0,
    }
}

/// The current time in whole seconds since the Unix epoch; 0 when the clock
/// reads a time before the epoch (see [`timestamp_or_zero`]). It is the
/// clock's reading, so nothing more is stated of it.
pub fn current_timestamp_secs() -> u64 {
    let reading = match since_unix_epoch(system_time_now()) {
        Some(d) => Some(whole_secs(d)),
        None => None,
    };
    timestamp_or_zero(reading)
}

/// Seconds elapsed from `last` to `now`, 0 when the clock went backwards.
pub open spec fn elapsed_secs(now: u64, last: u64) -> nat {
    if now >= last {
        (now - last) as nat
    } else {
        0
    }
}

/// Whether an idle monitor unloads the transcriber: it is loaded, no stream
/// is active, and at least [`IDLE_UNLOAD_SECS`] have passed since the last
/// activity.
pub fn should_unload_idle(now: u64, last_activity: u64, stream_active: bool, transcriber_loaded: bool) -> (r: bool)
    ensures
        r == (elapsed_secs(now, last_activity) >= IDLE_UNLOAD_SECS && !stream_active && transcriber_loaded),
{
    let elapsed = if now >= last_activity {
        now - last_activity
    } else {
        0
    };
    elapsed >= IDLE_UNLOAD_SECS && !stream_active && transcriber_loaded
}

} // verus!

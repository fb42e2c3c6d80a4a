use vstd::prelude::*;
use std::time::{SystemTime, SystemTimeError, UNIX_EPOCH};

use crate::settings::TimeUnit;

verus! {

#[verifier::external_type_specification]
#[verifier::external_body]
pub struct ExSystemTime(SystemTime);

#[verifier::external_type_specification]
#[verifier::external_body]
pub struct ExSystemTimeError(SystemTimeError);

/// Nanoseconds in one second.
pub const NANOS_PER_SECOND: u64 = 1_000_000_000;

/// Time passed since the Unix epoch, 1970-01-01 00:00:00 UTC, as whole
/// seconds and the nanoseconds of the second under way.
#[derive(PartialEq, Eq, Structural, Clone, Copy, Debug)]
pub struct Elapsed {
    pub secs: u64,
    pub nanos: u32,
}

impl Elapsed {
    /// The nanoseconds stay below one second.
    pub open spec fn wf(&self) -> bool {
        self.nanos < NANOS_PER_SECOND
    }

    /// The whole reading in nanoseconds.
    pub open spec fn total_nanos(&self) -> nat {
        self.secs as nat * NANOS_PER_SECOND as nat + self.nanos as nat
    }
}

/// How many nanoseconds make one of the unit.
pub open spec fn nanos_per_unit(u: TimeUnit) -> nat {
    match u {
        TimeUnit::Seconds => 1_000_000_000,
        TimeUnit::Milliseconds => 1_000_000,
        TimeUnit::Microseconds => 1_000,
        TimeUnit::Nanoseconds => 1,
    }
}

/// The reading in the unit, truncated toward zero.
pub open spec fn scaled(e: Elapsed, u: TimeUnit) -> nat {
    e.total_nanos() / nanos_per_unit(u)
}

/// The reading in the unit, truncated toward zero; 128 bits hold it for
/// every reading.
pub fn scale(e: &Elapsed, u: TimeUnit) -> (r: u128)
    ensures
        r == scaled(*e, u),
{
    let secs = e.secs as u128;
    assert(secs * 1_000_000_000 <= 0xffff_ffff_ffff_ffff * 1_000_000_000) by (nonlinear_arith)
        requires secs <= 0xffff_ffff_ffff_ffff;
    let total = secs * 1_000_000_000 + e.nanos as u128;
    let per: u128 = match u {
        TimeUnit::Seconds => 1_000_000_000,
        TimeUnit::Milliseconds => 1_000_000,
        TimeUnit::Microseconds => 1_000,
        TimeUnit::Nanoseconds => 1,
    };
    total / per
}

/// Going from one reading to a later one never lowers the scaled value.
pub proof fn law_scaled_monotone(a: Elapsed, b: Elapsed, u: TimeUnit)
    requires
        a.total_nanos() <= b.total_nanos(),
    ensures
        scaled(a, u) <= scaled(b, u),
{
    vstd::arithmetic::div_mod::lemma_div_is_ordered(
        a.total_nanos() as int,
        b.total_nanos() as int,
        nanos_per_unit(u) as int,
    );
}

/// The system clock could not be read as a time after the Unix epoch.
#[derive(PartialEq, Eq, Structural, Clone, Copy, Debug)]
pub enum ClockError {
    BeforeEpoch,
}

/// Relies on `SystemTime::now`: the current wall-clock time, of which
/// nothing can be promised.
#[verifier::external_body]
fn system_now() -> SystemTime {
    SystemTime::now()
}

/// Relies on `SystemTime::duration_since(UNIX_EPOCH)`: the time passed since
/// the epoch, or an error when `t` lies before it. The duration is split by
/// `Duration::as_secs` and `Duration::subsec_nanos`; the latter is always
/// below one billion.
#[verifier::external_body]
fn since_unix_epoch(t: &SystemTime) -> (r: Result<Elapsed, SystemTimeError>)
    ensures
        r is Ok ==> r->Ok_0.wf(),
{
    match t.duration_since(UNIX_EPOCH) {
        Ok(d) => Ok(Elapsed { secs: d.as_secs(), nanos: d.subsec_nanos() }),
        Err(e) => Err(e),
    }
}

/// Reads the system clock as time passed since the Unix epoch.
pub fn read_clock() -> (r: Result<Elapsed, ClockError>)
    ensures
        r is Ok ==> r->Ok_0.wf(),
        r is Err ==> r->Err_0 == ClockError::BeforeEpoch,
{
    let now = system_now();
    match since_unix_epoch(&now) {
        Ok(e) => Ok(e),
        Err(_) => Err(ClockError::BeforeEpoch),
    }
}

} // verus!

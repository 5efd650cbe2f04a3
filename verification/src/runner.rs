//! The access runner: the timed loop that performs exactly the requested
//! number of single-byte reads, walking the region by the cursor sequence.

use crate::cursor::cursor_offset;
use crate::region::Advice;
use std::time::Duration;
use std::time::Instant;
use vstd::prelude::*;

verus! {

#[verifier::external_type_specification]
#[verifier::external_body]
pub struct ExInstant(Instant);

/// Relies on std::time::Instant::now: an opaque monotonic timestamp; nothing
/// is assumed of its value.
#[verifier::external_body]
fn instant_now() -> Instant {
    Instant::now()
}

/// Relies on std::time::Instant::elapsed: the wall-clock time since `start`;
/// nothing is assumed of its value.
#[verifier::external_body]
fn elapsed_since(start: &Instant) -> Duration {
    start.elapsed()
}

/// Relies on std::time::Duration::as_nanos: the duration in whole
/// nanoseconds; nothing is assumed of its value.
#[verifier::external_body]
fn duration_as_nanos(d: &Duration) -> u128 {
    d.as_nanos()
}

/// Relies on std::hint::black_box: the byte is fed to an optimization
/// barrier, so the read that produced it cannot be elided.
#[verifier::external_body]
fn observe_byte(b: u8) {
    std::hint::black_box(b);
}

/// One benchmark configuration, read-only once built.
pub struct Config {
    /// Requested region size in bytes.
    pub size: usize,
    /// Number of accesses to perform.
    pub samples: u64,
    /// Configured stride in bytes (normalized modulo `size` before use).
    pub stride: usize,
    /// Page-residency advice for the region.
    pub advice: Advice,
    /// Suppress the result line.
    pub quiet: bool,
}

impl Config {
    /// Build a configuration from caller input, kept exactly as given.
    pub fn new(size: usize, samples: u64, stride: usize, advice: Advice, quiet: bool) -> (r: Self)
        ensures
            r.size == size,
            r.samples == samples,
            r.stride == stride,
            r.advice == advice,
            r.quiet == quiet,
    {
        Config { size, samples, stride, advice, quiet }
    }
}

/// The timed access loop: perform exactly `samples` single-byte reads over
/// `region`, starting at offset 0 and advancing by `stride % region.len()`
/// with single-subtraction wraparound. Returns the elapsed wall-clock time
/// in nanoseconds and the number of accesses performed, which always equals
/// `samples`. The k-th read touches offset
/// `cursor_offset(region.len(), stride % region.len(), k)`, always inside
/// the region.
pub fn stress(region: &[u8], stride: usize, samples: u64) -> (r: (u128, u64))
    requires
        region@.len() > 0,
    ensures
        r.1 == samples,
{
    let len = region.len();
    let s = stride % len;
    let start = instant_now();
    let mut i: usize = 0;
    let mut done: u64 = 0;
    while done < samples
        invariant
            0 < len,
            len == region@.len(),
            s == stride % len,
            s < len,
            done <= samples,
            i < len,
            i == cursor_offset(len as nat, s as nat, done as nat),
        decreases samples - done,
    {
        let b = region[i];
        observe_byte(b);
        i = if s >= len - i {
            s - (len - i)
        } else {
            i + s
        };
        done = done + 1;
    }
    let elapsed = elapsed_since(&start);
    (duration_as_nanos(&elapsed), done)
}

} // verus!

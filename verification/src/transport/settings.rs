//! Time limits and the non-blocking switch of a named-pipe stream.
use vstd::prelude::*;

#[allow(unused_imports)]
use crate::win32::INFINITE;

verus! {

/// Stored in place of a time limit when there is none.
pub const NEVER: u64 = 0xffff_ffff_ffff_ffff;

/// A length of time: whole seconds and the nanoseconds past them.
#[derive(Clone, Copy, Debug, PartialEq, Eq, Structural)]
pub struct TimeSpan {
    pub secs: u64,
    pub subsec_nanos: u32,
}

impl TimeSpan {
    /// Whole milliseconds in the span.
    pub open spec fn millis(self) -> int {
        self.secs * 1000 + self.subsec_nanos / 1_000_000
    }

    /// Whole milliseconds in the span.
    pub fn as_millis(self) -> (ms: u128)
        ensures
            ms == self.millis(),
    {
        self.secs as u128 * 1000 + (self.subsec_nanos / 1_000_000) as u128
    }
}

/// The longest finite wait, in milliseconds.
pub open spec fn longest_wait() -> int {
    INFINITE - 1
}

/// `ms`, or the longest finite wait if that is shorter.
pub open spec fn clamp_wait(ms: int) -> int {
    if ms <= longest_wait() {
        ms
    } else {
        longest_wait()
    }
}

/// The stored form of an optional time limit: `NEVER` without one, else its whole milliseconds, no
/// more than the longest finite wait.
pub open spec fn stored_limit(dur: Option<TimeSpan>) -> u64 {
    match dur {
        None => NEVER,
        Some(d) => clamp_wait(d.millis()) as u64,
    }
}

/// The stored form of an optional time limit.
pub fn duration_to_ms(dur: Option<TimeSpan>) -> (ms: u64)
    ensures
        ms == stored_limit(dur),
{
    match dur {
        None => NEVER,
        Some(d) => {
            let ms: u128 = d.as_millis();
            if ms >= INFINITE as u128 {
                (INFINITE - 1) as u64
            } else {
                ms as u64
            }
        },
    }
}

/// Milliseconds to wait under a stored limit; none at all when non-blocking.
pub open spec fn effective_wait_spec(nonblocking: bool, timeout: u64) -> u32 {
    if nonblocking {
        0
    } else if timeout == NEVER {
        INFINITE
    } else {
        clamp_wait(timeout as int) as u32
    }
}

/// Milliseconds that an operation waits, given the non-blocking switch and the stored limit.
pub fn effective_wait_ms(nonblocking: bool, timeout: u64) -> (ms: u32)
    ensures
        ms == effective_wait_spec(nonblocking, timeout),
{
    if nonblocking {
        return 0;
    }
    if timeout == NEVER {
        return INFINITE;
    }
    let clamped: u64 = if timeout >= INFINITE as u64 {
        (INFINITE - 1) as u64
    } else {
        timeout
    };
    clamped as u32
}

/// Settings that a stream shares with its clones.
#[derive(Clone, Copy, Debug, PartialEq, Eq, Structural)]
pub struct StreamSettings {
    pub read_timeout_ms: u64,
    pub write_timeout_ms: u64,
    pub nonblocking: bool,
}

impl StreamSettings {
    /// A blocking stream without time limits.
    pub fn new() -> (s: StreamSettings)
        ensures
            s == (StreamSettings {
                read_timeout_ms: NEVER,
                write_timeout_ms: NEVER,
                nonblocking: false,
            }),
    {
        StreamSettings { read_timeout_ms: NEVER, write_timeout_ms: NEVER, nonblocking: false }
    }

    /// Switches between blocking and non-blocking.
    pub fn set_nonblocking(&mut self, nonblocking: bool)
        ensures
            *final(self) == (StreamSettings { nonblocking, ..*old(self) }),
    {
        self.nonblocking = nonblocking;
    }

    /// Limits the time that reads wait.
    pub fn set_read_timeout(&mut self, dur: Option<TimeSpan>)
        ensures
            *final(self) == (StreamSettings {
                read_timeout_ms: stored_limit(dur),
                ..*old(self)
            }),
    {
        self.read_timeout_ms = duration_to_ms(dur);
    }

    /// Limits the time that writes wait.
    pub fn set_write_timeout(&mut self, dur: Option<TimeSpan>)
        ensures
            *final(self) == (StreamSettings {
                write_timeout_ms: stored_limit(dur),
                ..*old(self)
            }),
    {
        self.write_timeout_ms = duration_to_ms(dur);
    }

    /// Milliseconds that a read waits under these settings.
    pub fn read_wait_ms(&self) -> (ms: u32)
        ensures
            ms == effective_wait_spec(self.nonblocking, self.read_timeout_ms),
    {
        effective_wait_ms(self.nonblocking, self.read_timeout_ms)
    }

    /// Milliseconds that a write waits under these settings.
    pub fn write_wait_ms(&self) -> (ms: u32)
        ensures
            ms == effective_wait_spec(self.nonblocking, self.write_timeout_ms),
    {
        effective_wait_ms(self.nonblocking, self.write_timeout_ms)
    }
}

/// A limit that was stored is waited out to the millisecond, up to the longest finite wait, and a
/// limited wait is never endless.
pub proof fn limited_waits_end(d: TimeSpan)
    ensures
        ({
            let wait = effective_wait_spec(false, stored_limit(Some(d)));
            &&& wait == clamp_wait(d.millis())
            &&& wait != INFINITE
        }),
{
}

/// A wait is endless exactly for a blocking stream without a limit.
pub proof fn endless_only_without_limit(nonblocking: bool, timeout: u64)
    ensures
        effective_wait_spec(nonblocking, timeout) == INFINITE <==> !nonblocking && timeout
            == NEVER,
{
}

/// What a limit means: a non-blocking operation does not wait at all; a blocking one without a limit
/// waits for ever, and one with a limit waits its whole milliseconds, or one millisecond short of
/// the number that stands for ever if they are more.
pub proof fn waits_last_as_long_as_the_limit(nonblocking: bool, dur: Option<TimeSpan>)
    ensures
        ({
            let wait = effective_wait_spec(nonblocking, stored_limit(dur));
            &&& nonblocking ==> wait == 0
            &&& !nonblocking && dur is None ==> wait == 0xffff_ffff
            &&& !nonblocking && dur is Some ==> ({
                let ms = dur->0.secs * 1000 + dur->0.subsec_nanos as int / 1_000_000;
                (ms <= 0xffff_fffe ==> wait == ms) && (ms > 0xffff_fffe ==> wait == 0xffff_fffe)
            })
        }),
{
}

/// A longer limit is never waited out sooner than a shorter one.
pub proof fn longer_limits_wait_longer(a: TimeSpan, b: TimeSpan)
    requires
        a.secs * 1_000_000_000 + a.subsec_nanos <= b.secs * 1_000_000_000 + b.subsec_nanos,
        a.subsec_nanos < 1_000_000_000,
        b.subsec_nanos < 1_000_000_000,
    ensures
        effective_wait_spec(false, stored_limit(Some(a))) <= effective_wait_spec(
            false,
            stored_limit(Some(b)),
        ),
{
}

/// A span has its seconds' thousand milliseconds each, and one for every million nanoseconds past
/// them.
pub proof fn spans_count_whole_milliseconds(d: TimeSpan)
    ensures
        d.millis() * 1_000_000 <= d.secs * 1_000_000_000 + d.subsec_nanos,
        d.secs * 1_000_000_000 + d.subsec_nanos < (d.millis() + 1) * 1_000_000,
{
}

} // verus!

//! Mapping of controller input onto output formats: keyboard events for the UI
//! and ELRS channel values for RC vehicles, with per-engine rate limiting.

pub mod component;
pub mod custom;
pub mod elrs;
pub mod engine;
pub mod error;
pub mod keyboard;
pub mod manager;
pub mod strategy;

use vstd::prelude::*;

use self::keyboard::KeyEvent;

verus! {

/// Output of a mapping engine.
#[derive(Clone, Debug)]
pub enum MappedEvent {
    /// Keyboard events to inject into the UI event stream.
    KeyboardEvent { key_code: Vec<KeyEvent> },
    /// ELRS channel values: channel number and pulse width in microseconds,
    /// ordered by channel number, each channel at most once.
    ELRSData { pre_package: Vec<(u16, u16)> },
    /// Protocol-specific payloads by name.
    CustomEvent { event_type: Vec<(String, Vec<u8>)> },
}

#[verifier::external_type_specification]
#[verifier::external_body]
pub struct ExInstant(std::time::Instant);

/// Lets events through only when a minimum interval has passed since the last
/// event that was let through; the first event is always let through.
pub struct RateLimiter {
    min_interval_ms: u64,
    last_event_time: Option<std::time::Instant>,
}

impl RateLimiter {
    /// Minimum interval between processed events, in milliseconds.
    pub closed spec fn spec_min_interval_ms(&self) -> u64 {
        self.min_interval_ms
    }

    /// Time of the last event let through; `None` while no event has been.
    pub closed spec fn spec_last_event_time(&self) -> Option<std::time::Instant> {
        self.last_event_time
    }

    /// A rate limiter with the given minimum interval that has let no event
    /// through yet, so that an event right away is let through.
    pub fn new(min_interval_ms: u64) -> (r: RateLimiter)
        ensures
            r.spec_min_interval_ms() == min_interval_ms,
            r.spec_last_event_time() is None,
    {
        RateLimiter { min_interval_ms, last_event_time: None }
    }

    /// Minimum interval between processed events, in milliseconds.
    pub fn min_interval_ms(&self) -> (ms: u64)
        ensures
            ms == self.spec_min_interval_ms(),
    {
        self.min_interval_ms
    }

    /// Decides whether an event at `now` is let through, `elapsed_ms` milliseconds
    /// after the last event let through: always when none has been, otherwise when
    /// at least the minimum interval has passed. When it is, `now` becomes the last
    /// event time.
    pub fn should_process_after(&mut self, now: std::time::Instant, elapsed_ms: u128) -> (b: bool)
        ensures
            b == (old(self).spec_last_event_time() is None || elapsed_ms as u64 >= old(self).spec_min_interval_ms()),
            final(self).spec_min_interval_ms() == old(self).spec_min_interval_ms(),
            b ==> final(self).spec_last_event_time() == Some(now),
            !b ==> final(self).spec_last_event_time() == old(self).spec_last_event_time(),
    {
        let pass = match self.last_event_time {
            None => true,
            Some(_) => elapsed_ms as u64 >= self.min_interval_ms,
        };
        if pass {
            self.last_event_time = Some(now);
        }
        pass
    }

    /// Decides whether an event now is let through: the first one always is, a
    /// later one when at least the minimum interval has passed since the last
    /// event let through. An event let through becomes the last one.
    pub fn should_process(&mut self) -> (b: bool)
        ensures
            old(self).spec_last_event_time() is None ==> b,
            old(self).spec_min_interval_ms() == 0 ==> b,
            final(self).spec_min_interval_ms() == old(self).spec_min_interval_ms(),
            b ==> final(self).spec_last_event_time() is Some,
            !b ==> final(self).spec_last_event_time() == old(self).spec_last_event_time(),
    {
        let now = instant_now();
        let elapsed_ms: u128 = match self.last_event_time {
            Some(last) => {
                let since = duration_between(&now, &last);
                duration_millis(&since)
            },
            None => 0,
        };
        self.should_process_after(now, elapsed_ms)
    }
}

/// `std::time::Instant::now()`: the current instant of the monotonic clock.
/// Nothing is promised of the value.
#[verifier::external_body]
fn instant_now() -> std::time::Instant {
    std::time::Instant::now()
}

/// `Instant::duration_since`: time from `earlier` to `later`, zero when `earlier`
/// is later. Nothing is promised of the value.
#[verifier::external_body]
fn duration_between(later: &std::time::Instant, earlier: &std::time::Instant) -> std::time::Duration {
    later.duration_since(*earlier)
}

/// `Duration::as_millis`: whole milliseconds of a duration. Nothing is promised
/// of the value, as the duration's contents are not visible here.
#[verifier::external_body]
fn duration_millis(d: &std::time::Duration) -> u128 {
    d.as_millis()
}

} // verus!

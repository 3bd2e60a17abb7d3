//! Durations, hardware clocks and the instants they measure.
use vstd::prelude::*;

verus! {

/// Nanoseconds in one second.
pub const NANOS_PER_SEC: u128 = 1_000_000_000;

/// Nanoseconds in one millisecond.
pub const NANOS_PER_MILLI: u128 = 1_000_000;

/// The longest representable span: `u64::MAX` seconds and 999,999,999
/// nanoseconds, as for the standard library's durations.
pub const MAX_NANOS: u128 = 18_446_744_073_709_551_615_999_999_999;

/// `a + b` nanoseconds, or `None` past the longest representable span.
pub open spec fn checked_sum(a: nat, b: nat) -> Option<nat> {
    if a + b <= MAX_NANOS {
        Some(a + b)
    } else {
        None
    }
}

/// `a - b` nanoseconds, or `None` when `b` is the longer span.
pub open spec fn checked_difference(a: nat, b: nat) -> Option<nat> {
    if b <= a {
        Some((a - b) as nat)
    } else {
        None
    }
}

/// `a - b` nanoseconds, or zero when `b` is the longer span.
pub open spec fn saturating_difference(a: nat, b: nat) -> nat {
    if b <= a {
        (a - b) as nat
    } else {
        0
    }
}

/// A span of time, held as a whole number of nanoseconds.
#[derive(Clone, Copy, Debug, PartialEq, Eq, Structural, PartialOrd, Ord, Hash)]
pub struct Duration {
    nanos: u128,
}

impl View for Duration {
    type V = nat;

    /// The span in nanoseconds.
    closed spec fn view(&self) -> nat {
        self.nanos as nat
    }
}

impl Duration {
    #[verifier::type_invariant]
    spec fn inv(self) -> bool {
        self.nanos <= MAX_NANOS
    }

    /// `secs` seconds and `nanos` nanoseconds.
    pub fn new(secs: u64, nanos: u32) -> (r: Duration)
        requires
            secs * NANOS_PER_SEC + nanos <= MAX_NANOS,
        ensures
            r@ == secs * NANOS_PER_SEC + nanos,
    {
        Duration { nanos: secs as u128 * NANOS_PER_SEC + nanos as u128 }
    }

    pub fn from_secs(secs: u64) -> (r: Duration)
        ensures
            r@ == secs * NANOS_PER_SEC,
    {
        Duration { nanos: secs as u128 * NANOS_PER_SEC }
    }

    pub fn from_millis(millis: u64) -> (r: Duration)
        ensures
            r@ == millis * NANOS_PER_MILLI,
    {
        Duration { nanos: millis as u128 * NANOS_PER_MILLI }
    }

    pub fn from_nanos(nanos: u64) -> (r: Duration)
        ensures
            r@ == nanos,
    {
        Duration { nanos: nanos as u128 }
    }

    /// The zero-length span.
    pub fn zero() -> (r: Duration)
        ensures
            r@ == 0,
    {
        Duration { nanos: 0 }
    }

    /// The longest representable span.
    pub fn max_value() -> (r: Duration)
        ensures
            r@ == MAX_NANOS,
    {
        Duration { nanos: MAX_NANOS }
    }

    pub fn as_nanos(&self) -> (r: u128)
        ensures
            r == self@,
            r <= MAX_NANOS,
    {
        proof {
            use_type_invariant(self);
        }
        self.nanos
    }

    /// Whole milliseconds in the span, rounded down.
    pub fn as_millis(&self) -> (r: u128)
        ensures
            r == self@ / (NANOS_PER_MILLI as nat),
    {
        self.nanos / NANOS_PER_MILLI
    }

    /// Whole seconds in the span, rounded down.
    pub fn as_secs(&self) -> (r: u64)
        ensures
            r == self@ / (NANOS_PER_SEC as nat),
    {
        proof {
            use_type_invariant(self);
            assert(self.nanos / NANOS_PER_SEC <= u64::MAX) by (nonlinear_arith)
                requires
                    self.nanos <= MAX_NANOS,
            ;
        }
        (self.nanos / NANOS_PER_SEC) as u64
    }

    /// The nanoseconds beyond the whole seconds.
    pub fn subsec_nanos(&self) -> (r: u32)
        ensures
            r == self@ % (NANOS_PER_SEC as nat),
    {
        (self.nanos % NANOS_PER_SEC) as u32
    }

    /// `self + other`, or `None` past the longest representable span.
    pub fn checked_add(&self, other: Duration) -> (r: Option<Duration>)
        ensures
            self@ <= MAX_NANOS,
            other@ <= MAX_NANOS,
            r.is_some() == checked_sum(self@, other@).is_some(),
            r matches Some(d) ==> checked_sum(self@, other@) == Some(d@),
    {
        proof {
            use_type_invariant(self);
            use_type_invariant(&other);
        }
        if self.nanos <= MAX_NANOS - other.nanos {
            Some(Duration { nanos: self.nanos + other.nanos })
        } else {
            None
        }
    }

    /// `self - other`, or `None` when `other` is the longer span.
    pub fn checked_sub(&self, other: Duration) -> (r: Option<Duration>)
        ensures
            self@ <= MAX_NANOS,
            other@ <= MAX_NANOS,
            r.is_some() == checked_difference(self@, other@).is_some(),
            r matches Some(d) ==> checked_difference(self@, other@) == Some(d@),
    {
        proof {
            use_type_invariant(self);
            use_type_invariant(&other);
        }
        if other.nanos <= self.nanos {
            Some(Duration { nanos: self.nanos - other.nanos })
        } else {
            None
        }
    }
}

/// Timer ticks are always counted by a 64-bit unsigned integer.
pub type Ticks = u64;

/// `ticks` ticks of `tick` nanoseconds each, saturating at the longest
/// representable span.
pub open spec fn ticks_to_nanos(tick: nat, ticks: nat) -> nat {
    if tick * ticks > MAX_NANOS {
        MAX_NANOS as nat
    } else {
        tick * ticks
    }
}

/// The span covered by `ticks` ticks of `tick_duration`, saturating at the
/// longest representable span.
pub fn ticks_to_dur(tick_duration: Duration, ticks: Ticks) -> (r: Duration)
    ensures
        r@ == ticks_to_nanos(tick_duration@, ticks as nat),
{
    proof {
        use_type_invariant(&tick_duration);
    }
    let tick = tick_duration.nanos;
    if ticks != 0 && tick > MAX_NANOS / (ticks as u128) {
        proof {
            let t = ticks as int;
            assert(tick * t > MAX_NANOS) by (nonlinear_arith)
                requires
                    t > 0,
                    tick > (MAX_NANOS as int) / t,
            ;
        }
        Duration { nanos: MAX_NANOS }
    } else {
        proof {
            let t = ticks as int;
            if t > 0 {
                assert(tick * t <= MAX_NANOS) by (nonlinear_arith)
                    requires
                        t > 0,
                        tick <= (MAX_NANOS as int) / t,
                ;
            }
        }
        Duration { nanos: tick * (ticks as u128) }
    }
}

/// The span covered by the largest tick count of a clock whose ticks last
/// `tick_duration`.
pub fn max_duration(tick_duration: Duration) -> (r: Duration)
    ensures
        r@ == ticks_to_nanos(tick_duration@, u64::MAX as nat),
{
    ticks_to_dur(tick_duration, u64::MAX)
}

/// Errors of the timer facilities.
#[derive(Clone, Copy, Debug, PartialEq, Eq, Structural)]
pub enum TimerError {
    /// No global timer has been installed.
    NoGlobalTimer,
    /// A duration holds more ticks than a `Ticks` counter can count.
    DurationTooLong { requested: Duration, max: Duration },
}

/// Whole ticks of `tick_duration` in `dur`, rounded down; fails when the
/// count does not fit in a `Ticks`.
pub fn dur_to_ticks(tick_duration: Duration, dur: Duration) -> (r: Result<Ticks, TimerError>)
    requires
        tick_duration@ > 0,
    ensures
        dur@ / tick_duration@ <= u64::MAX ==> r == Ok::<Ticks, TimerError>(
            (dur@ / tick_duration@) as Ticks,
        ),
        dur@ / tick_duration@ > u64::MAX ==> (r matches Err(TimerError::DurationTooLong {
            requested,
            max,
        }) && requested == dur && max@ == ticks_to_nanos(tick_duration@, u64::MAX as nat)),
{
    let ticks = dur.as_nanos() / tick_duration.as_nanos();
    if ticks <= u64::MAX as u128 {
        Ok(ticks as u64)
    } else {
        Err(TimerError::DurationTooLong { requested: dur, max: max_duration(tick_duration) })
    }
}

/// A hardware clock: a function that reads the current timestamp in ticks,
/// and the span of one tick.
///
/// The tick source must be monotonically nondecreasing and extended to 64
/// bits by its implementation.
#[derive(Clone, Copy)]
pub struct Clock<F> {
    now: F,
    tick_duration: Duration,
    name: Option<&'static str>,
}

impl<F: Fn() -> Ticks> Clock<F> {
    /// The clock whose ticks last `tick_duration` and are read by `now`.
    pub fn new(tick_duration: Duration, now: F) -> (r: Clock<F>)
        ensures
            r.tick_span() == tick_duration,
            r.source() == now,
            r.name().is_none(),
    {
        Clock { now, tick_duration, name: None }
    }

    pub closed spec fn tick_span(&self) -> Duration {
        self.tick_duration
    }

    pub closed spec fn source(&self) -> F {
        self.now
    }

    pub closed spec fn name(&self) -> Option<&'static str> {
        self.name
    }

    /// The same clock under `name`.
    pub fn named(self, name: &'static str) -> (r: Clock<F>)
        ensures
            r.tick_span() == self.tick_span(),
            r.source() == self.source(),
            r.name() == Some(name),
    {
        Clock { name: Some(name), ..self }
    }

    /// The current timestamp, in ticks.
    pub fn now_ticks(&self) -> (r: Ticks)
        requires
            self.source().requires(()),
        ensures
            self.source().ensures((), r),
    {
        (self.now)()
    }

    /// The span of one tick.
    pub fn tick_duration(&self) -> (r: Duration)
        ensures
            r == self.tick_span(),
    {
        self.tick_duration
    }

    /// The instant the clock reads now: the current tick count times the
    /// span of one tick, saturating.
    pub fn now(&self) -> (r: Instant)
        requires
            self.source().requires(()),
        ensures
            exists|t: Ticks|
                self.source().ensures((), t) && r@ == ticks_to_nanos(self.tick_span()@, t as nat),
    {
        let ticks = self.now_ticks();
        let r = Instant::at_ticks(self.tick_duration, ticks);
        assert(self.source().ensures((), ticks) && r@ == ticks_to_nanos(
            self.tick_span()@,
            ticks as nat,
        ));
        r
    }

    /// The span of the largest tick count this clock can report.
    pub fn max_duration(&self) -> (r: Duration)
        ensures
            r@ == ticks_to_nanos(self.tick_span()@, u64::MAX as nat),
    {
        max_duration(self.tick_duration)
    }
}

/// A measurement of a monotonically nondecreasing clock: the span since an
/// unspecified origin.
#[derive(Clone, Copy, Debug, PartialEq, Eq, Structural, PartialOrd, Ord, Hash)]
pub struct Instant {
    since_origin: Duration,
}

impl View for Instant {
    type V = nat;

    /// Nanoseconds since the origin.
    closed spec fn view(&self) -> nat {
        self.since_origin@
    }
}

impl Instant {
    /// The instant `ticks` ticks of `tick_duration` after the origin,
    /// saturating.
    pub fn at_ticks(tick_duration: Duration, ticks: Ticks) -> (r: Instant)
        ensures
            r@ == ticks_to_nanos(tick_duration@, ticks as nat),
    {
        Instant { since_origin: ticks_to_dur(tick_duration, ticks) }
    }

    /// The instant the global timer reads now.
    pub fn now<F: Fn() -> Ticks>(global: &Clock<F>) -> (r: Instant)
        requires
            global.source().requires(()),
        ensures
            exists|t: Ticks|
                global.source().ensures((), t) && r@ == ticks_to_nanos(
                    global.tick_span()@,
                    t as nat,
                ),
    {
        global.now()
    }

    /// The instant the global timer reads now, or `NoGlobalTimer` when none
    /// is installed.
    pub fn try_now<F: Fn() -> Ticks>(global: Option<&Clock<F>>) -> (r: Result<Instant, TimerError>)
        requires
            global matches Some(c) ==> c.source().requires(()),
        ensures
            global.is_none() <==> r == Err::<Instant, TimerError>(TimerError::NoGlobalTimer),
            global matches Some(c) ==> (r matches Ok(i) && exists|t: Ticks|
                c.source().ensures((), t) && i@ == ticks_to_nanos(c.tick_span()@, t as nat)),
    {
        match global {
            Some(c) => Ok(c.now()),
            None => Err(TimerError::NoGlobalTimer),
        }
    }

    /// The span from `earlier` to `self`, or zero when `earlier` is later.
    pub fn duration_since(&self, earlier: Instant) -> (r: Duration)
        ensures
            self@ <= MAX_NANOS,
            earlier@ <= MAX_NANOS,
            r@ == saturating_difference(self@, earlier@),
    {
        match self.checked_duration_since(earlier) {
            Some(d) => d,
            None => Duration::zero(),
        }
    }

    /// The span from `earlier` to `self`, or `None` when `earlier` is later.
    pub fn checked_duration_since(&self, earlier: Instant) -> (r: Option<Duration>)
        ensures
            self@ <= MAX_NANOS,
            earlier@ <= MAX_NANOS,
            r.is_some() == checked_difference(self@, earlier@).is_some(),
            r matches Some(d) ==> checked_difference(self@, earlier@) == Some(d@),
    {
        self.since_origin.checked_sub(earlier.since_origin)
    }

    /// The span since the origin.
    pub fn elapsed(&self) -> (r: Duration)
        ensures
            r@ == self@,
            r@ <= MAX_NANOS,
    {
        proof {
            use_type_invariant(&self.since_origin);
        }
        self.since_origin
    }

    /// `self + duration`, or `None` past the representable range.
    pub fn checked_add(&self, duration: Duration) -> (r: Option<Instant>)
        ensures
            self@ <= MAX_NANOS,
            duration@ <= MAX_NANOS,
            r.is_some() == checked_sum(self@, duration@).is_some(),
            r matches Some(t) ==> checked_sum(self@, duration@) == Some(t@),
    {
        match self.since_origin.checked_add(duration) {
            Some(d) => Some(Instant { since_origin: d }),
            None => None,
        }
    }

    /// `self - duration`, or `None` before the origin.
    pub fn checked_sub(&self, duration: Duration) -> (r: Option<Instant>)
        ensures
            self@ <= MAX_NANOS,
            duration@ <= MAX_NANOS,
            r.is_some() == checked_difference(self@, duration@).is_some(),
            r matches Some(t) ==> checked_difference(self@, duration@) == Some(t@),
    {
        match self.since_origin.checked_sub(duration) {
            Some(d) => Some(Instant { since_origin: d }),
            None => None,
        }
    }
}

/// A clock never runs backwards: a later tick count, with the same tick
/// span, reads as an instant no earlier than an earlier count.
pub proof fn lemma_now_monotonic(tick_duration: Duration, earlier: Ticks, later: Ticks)
    requires
        earlier <= later,
    ensures
        ticks_to_nanos(tick_duration@, earlier as nat) <= ticks_to_nanos(
            tick_duration@,
            later as nat,
        ),
{
    let d = tick_duration@;
    assert(d * earlier <= d * later) by (nonlinear_arith)
        requires
            earlier <= later,
            d >= 0,
    ;
}

/// Adding a duration to an instant and measuring back from the sum gives
/// the duration again (`checked_add`, then `duration_since` or
/// `checked_duration_since`); when the sum is not representable,
/// `checked_add` gives `None`.
pub proof fn lemma_add_then_duration_since(t: Instant, d: Duration)
    ensures
        checked_sum(t@, d@) matches Some(sum) ==> saturating_difference(sum, t@) == d@
            && checked_difference(sum, t@) == Some(d@),
        checked_sum(t@, d@) is None <==> t@ + d@ > MAX_NANOS,
{
}

/// Subtracting a duration from an instant and adding it back gives the
/// instant again (`checked_sub`, then `checked_add`).
pub proof fn lemma_sub_then_add(t: Instant, d: Duration)
    requires
        t@ <= MAX_NANOS,
    ensures
        checked_difference(t@, d@) matches Some(u) ==> checked_sum(u, d@) == Some(t@),
        checked_difference(t@, d@) is None <==> d@ > t@,
{
}

} // verus!

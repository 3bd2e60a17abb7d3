//! The legacy Programmable Interval Timer (Intel 8253/8254).
//!
//! The driver decides what to program and records the port writes that do
//! it; the platform layer sends them to the hardware.
use crate::time::{Duration, NANOS_PER_MILLI};
use std::sync::atomic::{AtomicBool, Ordering};
use vstd::prelude::*;

verus! {

/// The PIT's base frequency, in hertz.
pub const BASE_FREQUENCY_HZ: usize = 1193180;

/// PIT ticks per millisecond.
pub const TICKS_PER_MS: usize = BASE_FREQUENCY_HZ / 1000;

/// The I/O port of channel 0; channels 1 and 2 and the command port follow.
pub const BASE_PORT: u16 = 0x40;

/// Operating mode 0: interrupt on terminal count.
pub const MODE_INTERRUPT: u8 = 0b000;

/// Operating mode 3: square wave generator.
pub const MODE_SQUARE_WAVE: u8 = 0b011;

/// Access mode: low byte, then high byte.
pub const ACCESS_BOTH: u8 = 0b11;

/// Channel select: channel 0.
pub const CHANNEL_0: u8 = 0b00;

/// One byte written to one I/O port.
#[derive(Clone, Copy, Debug, PartialEq, Eq, Structural)]
pub struct PortWrite {
    pub port: u16,
    pub value: u8,
}

/// Why a duration cannot be programmed.
#[derive(Clone, Copy, Debug, PartialEq, Eq, Structural)]
pub enum DurationExcess {
    /// Its milliseconds do not fit in a `usize`.
    MillisExceedUsize,
    /// Its tick count does not fit the 16-bit divisor.
    DivisorExceedsU16,
}

/// A duration the PIT cannot be programmed with, and why.
#[derive(Clone, Copy, Debug, PartialEq, Eq, Structural)]
pub struct InvalidDuration {
    pub duration: Duration,
    pub excess: DurationExcess,
}

impl InvalidDuration {
    pub fn new(duration: Duration, excess: DurationExcess) -> (r: InvalidDuration)
        ensures
            r.duration == duration,
            r.excess == excess,
    {
        InvalidDuration { duration, excess }
    }

    /// A description of the problem.
    pub fn message(&self) -> &'static str {
        match self.excess {
            DurationExcess::MillisExceedUsize => "duration as milliseconds would exceed a `usize`",
            DurationExcess::DivisorExceedsU16 => "PIT channel 0 divisor would exceed a `u16`",
        }
    }
}

/// Errors of the PIT driver.
#[derive(Clone, Copy, Debug, PartialEq, Eq, Structural)]
pub enum PitError {
    /// The periodic timer is already running.
    AlreadyRunning,
    /// A blocking sleep is in progress.
    SleepInProgress,
    /// The duration cannot be programmed.
    InvalidDuration(InvalidDuration),
}

impl PitError {
    fn invalid_duration(duration: Duration, excess: DurationExcess) -> (r: PitError)
        ensures
            r == PitError::InvalidDuration(InvalidDuration { duration, excess }),
    {
        PitError::InvalidDuration(InvalidDuration::new(duration, excess))
    }
}

/// Whole milliseconds in `d`.
pub open spec fn millis_of(d: Duration) -> nat {
    d@ / (NANOS_PER_MILLI as nat)
}

/// The PIT tick count for `d`.
pub open spec fn pit_ticks(d: Duration) -> nat {
    TICKS_PER_MS as nat * millis_of(d)
}

/// What stops `d` from being programmed, if anything.
pub open spec fn excess_of(d: Duration) -> Option<DurationExcess> {
    if millis_of(d) > usize::MAX {
        Some(DurationExcess::MillisExceedUsize)
    } else if pit_ticks(d) > u16::MAX {
        Some(DurationExcess::DivisorExceedsU16)
    } else {
        None
    }
}

/// The command byte that selects `channel`, `access` and `mode`, in binary
/// counting.
pub open spec fn command_value(mode: u8, access: u8, channel: u8) -> int {
    mode * 2 + access * 16 + channel * 64
}

/// The writes that program channel 0 in `mode` with `divisor`: the command,
/// then the divisor's low and high bytes.
pub open spec fn channel0_program(mode: u8, divisor: nat) -> Seq<PortWrite> {
    seq![
        PortWrite { port: (BASE_PORT + 3) as u16, value: command_value(mode, ACCESS_BOTH, CHANNEL_0) as u8 },
        PortWrite { port: BASE_PORT, value: (divisor % 256) as u8 },
        PortWrite { port: BASE_PORT, value: (divisor / 256) as u8 },
    ]
}

/// The command byte: bit 0 binary counting, bits 1-3 `mode`, bits 4-5
/// `access`, bits 6-7 `channel`.
fn command_byte(mode: u8, access: u8, channel: u8) -> (r: u8)
    requires
        mode < 8,
        access < 4,
        channel < 4,
    ensures
        r == command_value(mode, access, channel),
{
    mode * 2 + access * 16 + channel * 64
}

/// The channel 0 divisor for `duration`, or why there is none.
pub fn divisor_for(duration: Duration) -> (r: Result<u16, InvalidDuration>)
    ensures
        excess_of(duration) is None ==> r == Ok::<u16, InvalidDuration>(pit_ticks(duration) as u16),
        excess_of(duration) matches Some(e) ==> r == Err::<u16, InvalidDuration>(
            InvalidDuration { duration, excess: e },
        ),
{
    let ms = duration.as_millis();
    if ms > usize::MAX as u128 {
        return Err(InvalidDuration::new(duration, DurationExcess::MillisExceedUsize));
    }
    proof {
        assert(TICKS_PER_MS == 1193);
        assert(1193 * ms <= u128::MAX) by (nonlinear_arith)
            requires
                ms <= usize::MAX,
                usize::MAX <= u64::MAX,
        ;
    }
    let ticks = TICKS_PER_MS as u128 * ms;
    if ticks > u16::MAX as u128 {
        return Err(InvalidDuration::new(duration, DurationExcess::DivisorExceedsU16));
    }
    Ok(ticks as u16)
}

/// Whether a blocking sleep on the PIT is outstanding. The PIT interrupt
/// handler clears it.
pub struct SleepFlag {
    sleeping: AtomicBool,
}

impl SleepFlag {
    /// No sleep outstanding.
    pub fn new() -> (r: SleepFlag) {
        SleepFlag { sleeping: AtomicBool::new(false) }
    }

    /// Whether a sleep is outstanding now.
    pub fn is_sleeping(&self) -> (r: bool) {
        self.sleeping.load(Ordering::Acquire)
    }

    /// Claims the flag for a new sleep; `false` when one is outstanding.
    fn try_begin(&self) -> (r: bool) {
        self.sleeping.compare_exchange(false, true, Ordering::AcqRel, Ordering::Acquire).is_ok()
    }
}

/// The PIT's configuration state and the port writes that program it.
///
/// A system has one PIT: the platform keeps a single `Pit` behind a lock
/// and sends the writes recorded here to the hardware.
pub struct Pit {
    channel0: u16,
    channel1: u16,
    channel2: u16,
    command: u16,
    channel0_interval: Option<Duration>,
    pending: Vec<PortWrite>,
}

impl Pit {
    /// The periodic interval channel 0 returns to after a sleep, if any.
    pub closed spec fn interval(&self) -> Option<Duration> {
        self.channel0_interval
    }

    /// The port writes recorded and not yet sent, oldest first.
    pub closed spec fn pending(&self) -> Seq<PortWrite> {
        self.pending@
    }

    /// The ports: channels 0, 1 and 2, then the command port.
    pub closed spec fn ports(&self) -> (u16, u16, u16, u16) {
        (self.channel0, self.channel1, self.channel2, self.command)
    }

    pub open spec fn well_formed(&self) -> bool {
        self.ports() == (BASE_PORT, (BASE_PORT + 1) as u16, (BASE_PORT + 2) as u16, (BASE_PORT + 3) as u16)
    }

    /// The PIT at its legacy ports, with no periodic interval and nothing
    /// to send.
    pub fn new() -> (r: Pit)
        ensures
            r.well_formed(),
            r.interval().is_none(),
            r.pending() == Seq::<PortWrite>::empty(),
    {
        Pit {
            channel0: BASE_PORT,
            channel1: BASE_PORT + 1,
            channel2: BASE_PORT + 2,
            command: BASE_PORT + 3,
            channel0_interval: None,
            pending: Vec::new(),
        }
    }

    /// Hands over the recorded port writes, oldest first.
    pub fn take_port_writes(&mut self) -> (r: Vec<PortWrite>)
        ensures
            r@ == old(self).pending(),
            final(self).pending() == Seq::<PortWrite>::empty(),
            final(self).interval() == old(self).interval(),
            final(self).ports() == old(self).ports(),
    {
        let mut out: Vec<PortWrite> = Vec::new();
        out.append(&mut self.pending);
        out
    }

    fn send_command(&mut self, command: u8)
        ensures
            final(self).pending() == old(self).pending().push(
                PortWrite { port: old(self).ports().3, value: command },
            ),
            final(self).interval() == old(self).interval(),
            final(self).ports() == old(self).ports(),
    {
        self.pending.push(PortWrite { port: self.command, value: command });
    }

    fn set_divisor(&mut self, divisor: u16)
        ensures
            final(self).pending() == old(self).pending().push(
                PortWrite { port: old(self).ports().0, value: (divisor % 256) as u8 },
            ).push(PortWrite { port: old(self).ports().0, value: (divisor / 256) as u8 }),
            final(self).interval() == old(self).interval(),
            final(self).ports() == old(self).ports(),
    {
        let low = (divisor % 256) as u8;
        let high = (divisor / 256) as u8;
        self.pending.push(PortWrite { port: self.channel0, value: low });
        self.pending.push(PortWrite { port: self.channel0, value: high });
    }

    /// Programs channel 0 to raise IRQ 0 once, after `duration`: mode 0,
    /// binary, both divisor bytes.
    pub fn interrupt_in(&mut self, duration: Duration) -> (r: Result<(), InvalidDuration>)
        requires
            old(self).well_formed(),
        ensures
            final(self).well_formed(),
            final(self).interval() == old(self).interval(),
            excess_of(duration) is None ==> r is Ok && final(self).pending() == old(self).pending()
                + channel0_program(MODE_INTERRUPT, pit_ticks(duration)),
            excess_of(duration) matches Some(e) ==> r == Err::<(), InvalidDuration>(
                InvalidDuration { duration, excess: e },
            ) && final(self).pending() == old(self).pending(),
    {
        let divisor = match divisor_for(duration) {
            Ok(d) => d,
            Err(e) => return Err(e),
        };
        let command = command_byte(MODE_INTERRUPT, ACCESS_BOTH, CHANNEL_0);
        self.send_command(command);
        self.set_divisor(divisor);
        proof {
            assert(final(self).pending() =~= old(self).pending() + channel0_program(
                MODE_INTERRUPT,
                pit_ticks(duration),
            ));
        }
        Ok(())
    }

    /// Programs channel 0 to raise IRQ 0 every `interval` (mode 3, binary,
    /// both divisor bytes) and remembers the interval.
    ///
    /// Fails with `SleepInProgress` while `sleeping` shows a blocking sleep,
    /// and with `InvalidDuration` when the interval cannot be programmed;
    /// on failure nothing changes. What the flag showed is decided as in
    /// [`Pit::start_periodic_timer_with`].
    pub fn start_periodic_timer(&mut self, sleeping: &SleepFlag, interval: Duration) -> (r: Result<
        (),
        PitError,
    >)
        requires
            old(self).well_formed(),
        ensures
            final(self).well_formed(),
            exists|was_sleeping: bool|
                periodic_start_outcome(*old(self), *final(self), was_sleeping, interval, r),
    {
        let was_sleeping = sleeping.is_sleeping();
        self.start_periodic_timer_with(was_sleeping, interval)
    }

    /// Programs periodic mode with `interval` unless a blocking sleep is
    /// outstanding (`sleeping`); see [`periodic_start_outcome`].
    pub fn start_periodic_timer_with(&mut self, sleeping: bool, interval: Duration) -> (r: Result<
        (),
        PitError,
    >)
        requires
            old(self).well_formed(),
        ensures
            final(self).well_formed(),
            periodic_start_outcome(*old(self), *final(self), sleeping, interval, r),
    {
        if sleeping {
            return Err(PitError::SleepInProgress);
        }
        self.program_periodic(interval)
    }

    fn program_periodic(&mut self, interval: Duration) -> (r: Result<(), PitError>)
        requires
            old(self).well_formed(),
        ensures
            final(self).well_formed(),
            periodic_outcome(*old(self), *final(self), interval, r),
    {
        let divisor = match divisor_for(interval) {
            Ok(d) => d,
            Err(e) => return Err(PitError::invalid_duration(e.duration, e.excess)),
        };
        self.channel0_interval = Some(interval);
        let command = command_byte(MODE_SQUARE_WAVE, ACCESS_BOTH, CHANNEL_0);
        self.send_command(command);
        self.set_divisor(divisor);
        proof {
            assert(final(self).pending() =~= old(self).pending() + channel0_program(
                MODE_SQUARE_WAVE,
                pit_ticks(interval),
            ));
        }
        Ok(())
    }

    /// Starts a blocking sleep of `duration`: claims `sleeping`, then
    /// programs a one-shot interrupt.
    ///
    /// Fails with `SleepInProgress`, changing nothing, when another sleep is
    /// outstanding. Otherwise the flag stays claimed until the interrupt
    /// handler clears it, and the outcome is that of
    /// [`Pit::interrupt_in`]; see [`Pit::begin_sleep_with`].
    pub fn begin_sleep(&mut self, sleeping: &SleepFlag, duration: Duration) -> (r: Result<
        (),
        PitError,
    >)
        requires
            old(self).well_formed(),
        ensures
            final(self).well_formed(),
            exists|claimed: bool| sleep_start_outcome(*old(self), *final(self), claimed, duration, r),
    {
        let claimed = sleeping.try_begin();
        self.begin_sleep_with(claimed, duration)
    }

    /// Starts a blocking sleep of `duration` once the sleep flag has been
    /// tried: `claimed` is whether this sleep won it. See
    /// [`sleep_start_outcome`].
    pub fn begin_sleep_with(&mut self, claimed: bool, duration: Duration) -> (r: Result<(), PitError>)
        requires
            old(self).well_formed(),
        ensures
            final(self).well_formed(),
            sleep_start_outcome(*old(self), *final(self), claimed, duration, r),
    {
        if !claimed {
            return Err(PitError::SleepInProgress);
        }
        match self.interrupt_in(duration) {
            Ok(()) => Ok(()),
            Err(e) => Err(PitError::InvalidDuration(e)),
        }
    }

    /// Ends a blocking sleep once its interrupt has fired: when a periodic
    /// interval was running before, programs it again.
    pub fn finish_sleep(&mut self, sleeping: &SleepFlag) -> (r: Result<(), PitError>)
        requires
            old(self).well_formed(),
        ensures
            final(self).well_formed(),
            final(self).interval() == old(self).interval(),
            old(self).interval() is None ==> r is Ok && final(self).pending() == old(self).pending(),
            old(self).interval() matches Some(i) ==> exists|was_sleeping: bool|
                periodic_start_outcome(*old(self), *final(self), was_sleeping, i, r),
    {
        match self.channel0_interval {
            Some(interval) => self.start_periodic_timer(sleeping, interval),
            None => Ok(()),
        }
    }

    /// The PIT interrupt handler's part: clears `sleeping` and reports
    /// whether a blocking sleep was outstanding.
    pub fn handle_interrupt(sleeping: &SleepFlag) -> (r: bool) {
        sleeping.sleeping.swap(false, Ordering::AcqRel)
    }
}

/// What starting periodic mode with `interval` does to `before`, giving
/// `after` and `r`, when `sleeping` is whether a blocking sleep was
/// outstanding: `SleepInProgress` and no change while sleeping, else as
/// [`periodic_outcome`].
pub open spec fn periodic_start_outcome(
    before: Pit,
    after: Pit,
    sleeping: bool,
    interval: Duration,
    r: Result<(), PitError>,
) -> bool {
    if sleeping {
        &&& r == Err::<(), PitError>(PitError::SleepInProgress)
        &&& after.pending() == before.pending()
        &&& after.interval() == before.interval()
    } else {
        periodic_outcome(before, after, interval, r)
    }
}

/// What starting a blocking sleep of `duration` does to `before`, giving
/// `after` and `r`, when `claimed` is whether the sleep won the sleep flag:
/// `SleepInProgress` and no change when it did not; else a one-shot
/// interrupt of `pit_ticks(duration)` is programmed, or `InvalidDuration`
/// and no change. The periodic interval is kept either way.
pub open spec fn sleep_start_outcome(
    before: Pit,
    after: Pit,
    claimed: bool,
    duration: Duration,
    r: Result<(), PitError>,
) -> bool {
    &&& after.interval() == before.interval()
    &&& !claimed ==> r == Err::<(), PitError>(PitError::SleepInProgress) && after.pending()
        == before.pending()
    &&& claimed && excess_of(duration) is None ==> r is Ok && after.pending() == before.pending()
        + channel0_program(MODE_INTERRUPT, pit_ticks(duration))
    &&& claimed ==> (excess_of(duration) matches Some(e) ==> r == Err::<(), PitError>(
        PitError::InvalidDuration(InvalidDuration { duration, excess: e }),
    ) && after.pending() == before.pending())
}

/// What programming periodic mode with `interval` does to `before`, giving
/// `after` and the result `r`: on a programmable interval, channel 0 is set
/// to a square wave of `pit_ticks(interval)` and the interval remembered;
/// otherwise `InvalidDuration` and no change.
pub open spec fn periodic_outcome(before: Pit, after: Pit, interval: Duration, r: Result<(), PitError>) -> bool {
    &&& excess_of(interval) is None ==> {
        &&& r is Ok
        &&& after.interval() == Some(interval)
        &&& after.pending() == before.pending() + channel0_program(MODE_SQUARE_WAVE, pit_ticks(interval))
    }
    &&& excess_of(interval) matches Some(e) ==> {
        &&& r == Err::<(), PitError>(PitError::InvalidDuration(InvalidDuration { duration: interval, excess: e }))
        &&& after.interval() == before.interval()
        &&& after.pending() == before.pending()
    }
}

/// With no sleep outstanding, starting the periodic timer programs exactly
/// `TICKS_PER_MS` times the interval's milliseconds as a square wave when
/// that fits the 16-bit divisor, and otherwise fails with `InvalidDuration`
/// for that interval, changing nothing.
pub proof fn lemma_periodic_divisor(before: Pit, after: Pit, interval: Duration, r: Result<(), PitError>)
    requires
        periodic_start_outcome(before, after, false, interval, r),
    ensures
        pit_ticks(interval) <= u16::MAX ==> r is Ok && after.interval() == Some(interval)
            && after.pending() == before.pending() + channel0_program(
            MODE_SQUARE_WAVE,
            TICKS_PER_MS as nat * millis_of(interval),
        ),
        pit_ticks(interval) > u16::MAX ==> (r matches Err(PitError::InvalidDuration(e))
            && e.duration == interval && after.pending() == before.pending()
            && after.interval() == before.interval()),
{
    lemma_programmable_iff_divisor_fits(interval);
}

/// A duration can be programmed exactly when its PIT tick count fits the
/// 16-bit divisor.
pub proof fn lemma_programmable_iff_divisor_fits(d: Duration)
    ensures
        excess_of(d) is None <==> pit_ticks(d) <= u16::MAX,
{
    let ms = millis_of(d);
    if ms > usize::MAX {
        assert(1193 * ms > u16::MAX) by (nonlinear_arith)
            requires
                ms > usize::MAX,
                usize::MAX >= u16::MAX,
        ;
    }
}

} // verus!

//! Clock resource and its sync sources.
//!
//! [`Clock`] is the world resource read by handlers: a monotonic instant
//! and UTC nanoseconds. A sync source writes it once per event-loop
//! iteration: [`RealtimeClock`] from the system clocks, [`TestClock`] under
//! manual control, [`HistoricalClock`] by replaying a time range at a
//! fixed step.
use vstd::prelude::*;
use std::time::{Instant, SystemTime};

verus! {

/// Nanoseconds in a second.
pub const NANOS_PER_SEC: u128 = 1_000_000_000;

/// Strict upper bound on the nanoseconds of any span the system clocks
/// report: `2^64` seconds.
pub const SPAN_NANOS_LIMIT: u128 = 18_446_744_073_709_551_616_000_000_000;

/// A span of time, in nanoseconds.
#[derive(Clone, Copy, PartialEq, Eq, Structural, PartialOrd, Ord, Hash, Debug)]
pub struct Duration {
    /// Total nanoseconds.
    pub nanos: u128,
}

impl Duration {
    /// The empty span.
    pub fn zero() -> (r: Duration)
        ensures r.nanos == 0,
    {
        Duration { nanos: 0 }
    }

    /// A span of `nanos` nanoseconds.
    pub fn from_nanos(nanos: u64) -> (r: Duration)
        ensures r.nanos == nanos,
    {
        Duration { nanos: nanos as u128 }
    }

    /// A span of `micros` microseconds.
    pub fn from_micros(micros: u64) -> (r: Duration)
        ensures r.nanos == micros * 1000,
    {
        Duration { nanos: (micros as u128) * 1000 }
    }

    /// A span of `millis` milliseconds.
    pub fn from_millis(millis: u64) -> (r: Duration)
        ensures r.nanos == millis * 1_000_000,
    {
        Duration { nanos: (millis as u128) * 1_000_000 }
    }

    /// A span of `secs` seconds.
    pub fn from_secs(secs: u64) -> (r: Duration)
        ensures r.nanos == secs * NANOS_PER_SEC,
    {
        Duration { nanos: (secs as u128) * NANOS_PER_SEC }
    }

    /// Total nanoseconds.
    pub fn as_nanos(&self) -> (r: u128)
        ensures r == self.nanos,
    {
        self.nanos
    }

    /// Whether the span is empty.
    pub fn is_zero(&self) -> (r: bool)
        ensures r == (self.nanos == 0),
    {
        self.nanos == 0
    }
}

/// Error from building a clock with an invalid configuration.
#[derive(Debug, Clone, PartialEq, Eq)]
pub enum ConfigError {
    /// The configuration was rejected; the message says why.
    Invalid(&'static str),
}

impl ConfigError {
    /// The reason given.
    pub open spec fn message(&self) -> &'static str {
        match self {
            ConfigError::Invalid(msg) => *msg,
        }
    }

    /// The error as text: a fixed prefix, then the reason.
    pub fn to_text(&self) -> (r: String)
        ensures r@ == "clock configuration error: "@ + self.message()@,
    {
        match self {
            ConfigError::Invalid(msg) => {
                let mut s = String::from_str("clock configuration error: ");
                s.append(msg);
                s
            },
        }
    }
}

/// `std::time::Instant`, a monotonic clock reading, carried opaque: the
/// library only passes readings to the wrappers below.
#[verifier::external_type_specification]
#[verifier::external_body]
pub struct ExInstant(Instant);

/// `Instant` is `Copy`: its `clone` returns the same reading.
pub assume_specification[<Instant as Clone>::clone](i: &Instant) -> (r: Instant)
    ensures r == *i;

/// `Instant::now`: a reading of the monotonic clock. Nothing is promised of
/// the value, which depends on when the call is made.
#[verifier::external_body]
fn instant_now() -> (r: Instant) {
    Instant::now()
}

/// `Instant::saturating_duration_since` in nanoseconds: the span from
/// `earlier` to `later`, zero if `later` is not after it, so zero from a
/// reading to itself. A `Duration` holds fewer than `2^64` seconds, which
/// bounds the result; its value otherwise depends on the two readings,
/// which the library does not see.
#[verifier::external_body]
fn nanos_since(later: Instant, earlier: Instant) -> (r: u128)
    ensures
        r < SPAN_NANOS_LIMIT,
        later == earlier ==> r == 0,
{
    later.saturating_duration_since(earlier).as_nanos()
}

/// `Instant::checked_add` of a span of `nanos` nanoseconds
/// (`Duration::from_nanos`): `Some` of the instant `nanos` after `i`, or
/// `None` when that is outside the clock's range. An empty span gives `i`
/// itself, and a nonempty one another instant; which one is not stated:
/// readings are opaque to the library.
#[verifier::external_body]
fn instant_checked_add(i: Instant, nanos: u64) -> (r: Option<Instant>)
    ensures
        nanos == 0 ==> r == Some(i),
        r matches Some(t) ==> (t == i <==> nanos == 0),
{
    i.checked_add(std::time::Duration::from_nanos(nanos))
}

/// A span of `nanos` nanoseconds capped at `u64::MAX`.
pub fn capped_span(nanos: u128) -> (r: u64)
    ensures r == (if nanos > u64::MAX { u64::MAX as int } else { nanos as int }),
{
    if nanos > 0xFFFF_FFFF_FFFF_FFFFu128 { 0xFFFF_FFFF_FFFF_FFFFu64 } else { nanos as u64 }
}

/// The instant `nanos` after `i`, the span capped at `u64::MAX`
/// nanoseconds; `i` itself when the sum is outside the clock's range.
fn instant_plus(i: Instant, nanos: u128) -> (r: Instant) {
    let span = capped_span(nanos);
    match instant_checked_add(i, span) {
        Some(j) => j,
        None => i,
    }
}

/// Write to `slot` the instant `nanos` after `origin`, the span capped at
/// `u64::MAX` nanoseconds: `origin` itself for an empty span, another
/// instant for a nonempty one; `slot` is left as it was when that instant
/// is outside the clock's range.
fn write_offset_instant(slot: &mut Instant, origin: Instant, nanos: u128)
    ensures
        nanos == 0 ==> *final(slot) == origin,
        nanos != 0 ==> *final(slot) != origin || *final(slot) == *old(slot),
{
    let span = capped_span(nanos);
    match instant_checked_add(origin, span) {
        Some(t) => { *slot = t; },
        None => {},
    }
}

/// `std::time::SystemTime`, a wall-clock reading, carried opaque.
#[verifier::external_type_specification]
#[verifier::external_body]
pub struct ExSystemTime(SystemTime);

/// `SystemTime::now`: a reading of the wall clock. Nothing is promised of
/// the value, which depends on when the call is made.
#[verifier::external_body]
fn system_now() -> (r: SystemTime) {
    SystemTime::now()
}

/// `SystemTime::duration_since(UNIX_EPOCH)` in nanoseconds: `Ok` with the
/// span after the epoch, `Err` with the span before it when the reading
/// precedes the epoch. A `Duration` holds fewer than `2^64` seconds, which
/// bounds either span; their values depend on the reading, which the
/// library does not see.
#[verifier::external_body]
fn nanos_from_epoch(t: SystemTime) -> (r: Result<u128, u128>)
    ensures
        match r {
            Ok(n) => n < SPAN_NANOS_LIMIT,
            Err(n) => n < SPAN_NANOS_LIMIT,
        },
{
    match t.duration_since(std::time::UNIX_EPOCH) {
        Ok(d) => Ok(d.as_nanos()),
        Err(e) => Err(e.duration().as_nanos()),
    }
}

/// Signed nanoseconds from a span after the UNIX epoch (`Ok`) or before
/// it (`Err`).
pub fn signed_epoch_nanos(span: Result<u128, u128>) -> (r: i128)
    requires
        match span {
            Ok(n) => n < SPAN_NANOS_LIMIT,
            Err(n) => n < SPAN_NANOS_LIMIT,
        },
    ensures
        r == (match span {
            Ok(n) => n as int,
            Err(n) => -(n as int),
        }),
{
    match span {
        Ok(n) => n as i128,
        Err(n) => -(n as i128),
    }
}

/// The wall clock as signed nanoseconds since the UNIX epoch (negative
/// before it).
fn wall_clock_nanos() -> (r: i128)
    ensures -(SPAN_NANOS_LIMIT as int) < r < SPAN_NANOS_LIMIT,
{
    signed_epoch_nanos(nanos_from_epoch(system_now()))
}

/// The gaps of one calibration's attempts: at least one and at most
/// `max`; every attempt but the last above `threshold`; the last within it,
/// or the `max`-th.
pub open spec fn attempts_taken(gaps: Seq<u128>, threshold: u128, max: nat) -> bool {
    &&& 1 <= gaps.len() <= max
    &&& forall|j: int| 0 <= j < gaps.len() - 1 ==> gaps[j] > threshold
    &&& (gaps.len() == max || gaps[gaps.len() - 1] <= threshold)
}

/// Of the first `k` attempts, `i` is the first with the smallest gap.
pub open spec fn first_smallest(gaps: Seq<u128>, k: int, i: int) -> bool {
    &&& 0 <= i < k <= gaps.len()
    &&& forall|j: int| 0 <= j < k ==> gaps[i] <= gaps[j]
    &&& forall|j: int| 0 <= j < i ==> gaps[j] > gaps[i]
}

/// Calibration `c` comes from the attempts with these gaps and wall
/// readings: it keeps the gap and wall reading of the first attempt with
/// the smallest gap.
pub open spec fn calibrated_from(c: Calibration, gaps: Seq<u128>, walls: Seq<i128>, threshold: u128, max: nat) -> bool {
    &&& gaps.len() == walls.len()
    &&& attempts_taken(gaps, threshold, max)
    &&& exists|i: int| #[trigger] first_smallest(gaps, gaps.len() as int, i) && c.gap.nanos == gaps[i] && c.nanos == walls[i]
}

/// `c` is what a calibration with this threshold and retry limit gives for
/// some clock readings.
pub open spec fn is_calibration(c: Calibration, threshold: u128, max: nat) -> bool {
    exists|gaps: Seq<u128>, walls: Seq<i128>| #[trigger] calibrated_from(c, gaps, walls, threshold, max)
}

/// The attempts a calibration considers among the gaps `gaps`, in order:
/// up to and including the first within `threshold`, at most `max`, at most
/// all of them; and the first of those with the smallest gap.
pub fn pick_attempt(gaps: &Vec<u128>, threshold: u128, max: u32) -> (r: (usize, usize))
    requires gaps@.len() > 0, max > 0,
    ensures
        1 <= r.0 <= gaps@.len(),
        r.0 <= max,
        forall|j: int| 0 <= j < r.0 - 1 ==> gaps@[j] > threshold,
        r.0 == gaps@.len() || r.0 == max || gaps@[r.0 - 1] <= threshold,
        first_smallest(gaps@, r.0 as int, r.1 as int),
{
    let mut best: usize = 0;
    let mut k: usize = 1;
    let mut stop = gaps[0] <= threshold;
    while k < gaps.len() && k < max as usize && !stop
        invariant
            1 <= k <= gaps@.len(),
            k <= max,
            stop == (gaps@[k - 1] <= threshold),
            forall|j: int| 0 <= j < k - 1 ==> gaps@[j] > threshold,
            first_smallest(gaps@, k as int, best as int),
        decreases gaps@.len() - k,
    {
        if gaps[k] < gaps[best] {
            best = k;
        }
        stop = gaps[k] <= threshold;
        k += 1;
    }
    (k, best)
}

/// A clock fresh from a calibration at its base instant: both anchors are
/// that instant, the base nanos are the calibration's wall reading, and the
/// gap and accuracy are the calibration's.
pub open spec fn calibrated_clock(c: RealtimeClock) -> bool {
    &&& c.anchors().0 == c.anchors().1
    &&& exists|cal: Calibration| #[trigger] is_calibration(cal, c.settings().0.nanos, c.settings().1 as nat)
        && c.anchors().0 == cal.instant
        && c.base() == cal.nanos
        && c.calibration() == (cal.gap.nanos <= c.settings().0.nanos, cal.gap)
}

/// `c1` is `c0` recalibrated at `now`: the settings stay, both anchors
/// become `now`, and the base nanos are a calibration's wall reading plus
/// a span (the one from the calibration's instant to `now`), with the
/// calibration's gap and the accuracy it gives.
pub open spec fn recalibrated(c0: RealtimeClock, c1: RealtimeClock, now: Instant) -> bool {
    &&& c1.settings() == c0.settings()
    &&& c1.anchors() == (now, now)
    &&& exists|cal: Calibration| #[trigger] is_calibration(cal, c0.settings().0.nanos, c0.settings().1 as nat)
        && cal.nanos <= c1.base() < cal.nanos + SPAN_NANOS_LIMIT
        && c1.calibration() == (cal.gap.nanos <= c0.settings().0.nanos, cal.gap)
}

/// Whether a clock last calibrated `since` nanoseconds ago recalibrates
/// under this interval.
pub fn needs_resync(since: u128, interval: Duration) -> (r: bool)
    ensures r == (since >= interval.nanos),
{
    since >= interval.nanos
}

/// UTC nanos `elapsed` nanoseconds after the base.
pub fn extrapolate(base: i128, elapsed: u128) -> (r: i128)
    requires
        -(SPAN_NANOS_LIMIT as int) < base < 2 * SPAN_NANOS_LIMIT,
        elapsed < SPAN_NANOS_LIMIT,
    ensures r == base + elapsed,
{
    base + elapsed as i128
}

/// The clock resource: a monotonic instant for latency measurement and
/// UTC nanoseconds since the UNIX epoch.
#[derive(Clone, Copy, Debug)]
pub struct Clock {
    /// Monotonic instant.
    pub instant: Instant,
    /// UTC nanoseconds since the UNIX epoch.
    pub unix_nanos: i128,
}

impl Default for Clock {
    fn default() -> (r: Clock)
        ensures r.unix_nanos == 0,
    {
        Clock { instant: instant_now(), unix_nanos: 0 }
    }
}

/// Default calibration threshold: 250 ns.
pub const DEFAULT_THRESHOLD_NANOS: u128 = 250;

/// Smallest threshold accepted: 100 ns.
pub const MIN_THRESHOLD_NANOS: u128 = 100;

/// Default number of calibration attempts.
pub const DEFAULT_MAX_RETRIES: u32 = 20;

/// Default resync interval: one hour.
pub const DEFAULT_RESYNC_NANOS: u128 = 3_600_000_000_000;

/// Sync source from the system clocks: UTC nanos are extrapolated from a
/// calibrated base pair (instant, wall nanos) and re-calibrated every
/// resync interval.
pub struct RealtimeClock {
    base_instant: Instant,
    base_nanos: i128,
    last_resync: Instant,
    resync_interval: Duration,
    threshold: Duration,
    max_retries: u32,
    calibration_gap: Duration,
    accurate: bool,
}

/// Result of a calibration: the chosen instant, its wall nanos and the gap
/// of the best attempt.
pub struct Calibration {
    /// Midpoint instant of the best attempt.
    pub instant: Instant,
    /// Wall nanos read during the best attempt.
    pub nanos: i128,
    /// Gap between the instant readings around the wall-clock read.
    pub gap: Duration,
}

/// Builder for [`RealtimeClock`].
pub struct RealtimeClockBuilder {
    /// Calibration threshold.
    pub threshold: Duration,
    /// Maximum calibration attempts.
    pub max_retries: u32,
    /// Time between recalibrations.
    pub resync_interval: Duration,
}

impl RealtimeClock {
    /// Accuracy settings of the clock: threshold, retries, resync interval.
    pub closed spec fn settings(&self) -> (Duration, u32, Duration) {
        (self.threshold, self.max_retries, self.resync_interval)
    }

    /// Whether the last calibration met the threshold, and its gap.
    pub closed spec fn calibration(&self) -> (bool, Duration) {
        (self.accurate, self.calibration_gap)
    }

    /// UTC nanos at the base instant.
    pub closed spec fn base(&self) -> i128 {
        self.base_nanos
    }

    /// The base instant and the instant of the last recalibration.
    pub closed spec fn anchors(&self) -> (Instant, Instant) {
        (self.base_instant, self.last_resync)
    }

    /// A well-formed clock is accurate exactly when the gap of its last
    /// calibration is within the threshold.
    pub proof fn lemma_accuracy(&self)
        requires self.wf(),
        ensures self.calibration().0 == (self.calibration().1.nanos <= self.settings().0.nanos),
    {
    }

    /// Invariant: the base nanos are within the wall clock's range and a
    /// calibration gap within the threshold is what makes the clock
    /// accurate.
    pub closed spec fn wf(&self) -> bool {
        &&& -(SPAN_NANOS_LIMIT as int) < self.base_nanos < 2 * SPAN_NANOS_LIMIT
        &&& self.accurate == (self.calibration_gap.nanos <= self.threshold.nanos)
        &&& self.max_retries > 0
    }

    /// A builder with the default settings.
    pub fn builder() -> (r: RealtimeClockBuilder)
        ensures
            r.threshold.nanos == DEFAULT_THRESHOLD_NANOS,
            r.max_retries == DEFAULT_MAX_RETRIES,
            r.resync_interval.nanos == DEFAULT_RESYNC_NANOS,
    {
        RealtimeClockBuilder {
            threshold: Duration { nanos: DEFAULT_THRESHOLD_NANOS },
            max_retries: DEFAULT_MAX_RETRIES,
            resync_interval: Duration { nanos: DEFAULT_RESYNC_NANOS },
        }
    }

    /// Write the clock for `now`: recalibrate first when the resync
    /// interval has passed since the last calibration (always, for a zero
    /// interval), then extrapolate UTC nanos from the base pair by the span
    /// since the base instant.
    pub fn sync(&mut self, clock: &mut Clock, now: Instant)
        requires old(self).wf(),
        ensures
            final(self).wf(),
            final(self).settings() == old(self).settings(),
            *final(self) == *old(self) || recalibrated(*old(self), *final(self), now),
            old(self).settings().2.nanos == 0 ==> recalibrated(*old(self), *final(self), now),
            final(clock).instant == now,
            final(self).base() <= final(clock).unix_nanos < final(self).base() + SPAN_NANOS_LIMIT,
            final(self).anchors().0 == now ==> final(clock).unix_nanos == final(self).base(),
    {
        let since = nanos_since(now, self.last_resync);
        if needs_resync(since, self.resync_interval) {
            self.resync_at(now);
        }
        let elapsed = nanos_since(now, self.base_instant);
        clock.instant = now;
        clock.unix_nanos = extrapolate(self.base_nanos, elapsed);
    }

    /// Recalibrate now.
    pub fn resync(&mut self)
        requires old(self).wf(),
        ensures
            final(self).wf(),
            final(self).settings() == old(self).settings(),
            exists|t: Instant| recalibrated(*old(self), *final(self), t),
    {
        let now = instant_now();
        self.resync_at(now);
    }

    /// Whether the last calibration's gap was within the threshold.
    pub fn is_accurate(&self) -> (r: bool)
        ensures r == self.calibration().0,
    {
        self.accurate
    }

    /// Gap of the last calibration.
    pub fn calibration_gap(&self) -> (r: Duration)
        ensures r == self.calibration().1,
    {
        self.calibration_gap
    }

    fn resync_at(&mut self, now: Instant)
        requires old(self).wf(),
        ensures
            final(self).wf(),
            recalibrated(*old(self), *final(self), now),
    {
        let cal = Self::calibrate(self.threshold, self.max_retries);
        let adjustment = nanos_since(now, cal.instant);
        let ghost c0 = *self;
        self.apply_calibration(cal, now, adjustment);
        proof {
            assert(is_calibration(cal, c0.settings().0.nanos, c0.settings().1 as nat));
            assert(recalibrated(c0, *self, now));
        }
    }

    /// Take calibration `cal` as the new base at `now`, where `adjustment`
    /// is the span from the calibration's instant to `now`: both anchors
    /// become `now`, the base nanos are the calibration's wall reading plus
    /// the adjustment, the gap is the calibration's, and the clock is
    /// accurate exactly when that gap is within the threshold.
    pub fn apply_calibration(&mut self, cal: Calibration, now: Instant, adjustment: u128)
        requires
            old(self).wf(),
            -(SPAN_NANOS_LIMIT as int) < cal.nanos < SPAN_NANOS_LIMIT,
            adjustment < SPAN_NANOS_LIMIT,
        ensures
            final(self).wf(),
            final(self).settings() == old(self).settings(),
            final(self).anchors() == (now, now),
            final(self).base() == cal.nanos + adjustment,
            final(self).calibration() == (cal.gap.nanos <= old(self).settings().0.nanos, cal.gap),
    {
        self.base_instant = now;
        self.base_nanos = cal.nanos + adjustment as i128;
        self.calibration_gap = cal.gap;
        self.accurate = cal.gap.nanos <= self.threshold.nanos;
        self.last_resync = now;
    }

    /// Read the wall clock between two instant readings, up to
    /// `max_retries` times, keeping the attempt with the smallest gap;
    /// stop early once a gap is within the threshold. The attempt kept is
    /// chosen by [`pick_attempt`] from the readings taken.
    pub fn calibrate(threshold: Duration, max_retries: u32) -> (r: Calibration)
        requires max_retries > 0,
        ensures
            -(SPAN_NANOS_LIMIT as int) < r.nanos < SPAN_NANOS_LIMIT,
            r.gap.nanos < SPAN_NANOS_LIMIT,
            is_calibration(r, threshold.nanos, max_retries as nat),
    {
        let mut gaps: Vec<u128> = Vec::new();
        let mut walls: Vec<i128> = Vec::new();
        let mut befores: Vec<Instant> = Vec::new();
        let mut done = false;
        while gaps.len() < max_retries as usize && !done
            invariant
                max_retries > 0,
                gaps@.len() == walls@.len(),
                gaps@.len() == befores@.len(),
                gaps@.len() <= max_retries,
                done ==> gaps@.len() > 0 && gaps@[gaps@.len() - 1] <= threshold.nanos,
                !done ==> forall|j: int| 0 <= j < gaps@.len() ==> gaps@[j] > threshold.nanos,
                forall|j: int| 0 <= j < gaps@.len() - 1 ==> gaps@[j] > threshold.nanos,
                forall|j: int| 0 <= j < gaps@.len() ==> gaps@[j] < SPAN_NANOS_LIMIT,
                forall|j: int| 0 <= j < walls@.len() ==> -(SPAN_NANOS_LIMIT as int) < #[trigger] walls@[j] < SPAN_NANOS_LIMIT,
            decreases max_retries - gaps@.len(),
        {
            let before = instant_now();
            let wall = wall_clock_nanos();
            let after = instant_now();
            let gap = nanos_since(after, before);
            gaps.push(gap);
            walls.push(wall);
            befores.push(before);
            if gap <= threshold.nanos {
                done = true;
            }
        }
        let (k, i) = pick_attempt(&gaps, threshold.nanos, max_retries);
        proof {
            if k < gaps@.len() {
                assert(k < max_retries);
                assert(gaps@[k - 1] > threshold.nanos);
            }
            assert(k == gaps@.len());
            assert(attempts_taken(gaps@, threshold.nanos, max_retries as nat));
        }
        let gap = gaps[i];
        let r = Calibration { instant: instant_plus(befores[i], gap / 2), nanos: walls[i], gap: Duration { nanos: gap } };
        proof {
            assert(calibrated_from(r, gaps@, walls@, threshold.nanos, max_retries as nat));
        }
        r
    }
}

impl Default for RealtimeClock {
    fn default() -> (r: RealtimeClock)
        ensures
            r.wf(),
            r.settings() == (Duration { nanos: DEFAULT_THRESHOLD_NANOS }, DEFAULT_MAX_RETRIES,
                Duration { nanos: DEFAULT_RESYNC_NANOS }),
    {
        match RealtimeClock::builder().build() {
            Ok(c) => c,
            Err(_) => {
                proof { assert(false); }
                RealtimeClock::builder().build_unchecked()
            },
        }
    }
}

impl RealtimeClockBuilder {
    /// Set the calibration threshold; values below the minimum are raised
    /// to it.
    pub fn threshold(self, threshold: Duration) -> (r: RealtimeClockBuilder)
        ensures
            r.threshold.nanos == if threshold.nanos < MIN_THRESHOLD_NANOS { MIN_THRESHOLD_NANOS } else { threshold.nanos },
            r.max_retries == self.max_retries,
            r.resync_interval == self.resync_interval,
    {
        let t = if threshold.nanos < MIN_THRESHOLD_NANOS { Duration { nanos: MIN_THRESHOLD_NANOS } } else { threshold };
        RealtimeClockBuilder { threshold: t, ..self }
    }

    /// Set the maximum number of calibration attempts.
    pub fn max_retries(self, n: u32) -> (r: RealtimeClockBuilder)
        ensures r.max_retries == n, r.threshold == self.threshold, r.resync_interval == self.resync_interval,
    {
        RealtimeClockBuilder { max_retries: n, ..self }
    }

    /// Set the interval between recalibrations.
    pub fn resync_interval(self, interval: Duration) -> (r: RealtimeClockBuilder)
        ensures r.resync_interval == interval, r.threshold == self.threshold, r.max_retries == self.max_retries,
    {
        RealtimeClockBuilder { resync_interval: interval, ..self }
    }

    /// Calibrate and build the clock; `max_retries` must be positive.
    pub fn build(self) -> (r: Result<RealtimeClock, ConfigError>)
        ensures
            self.max_retries == 0 <==> r is Err,
            self.max_retries == 0 ==> r == Err::<RealtimeClock, ConfigError>(ConfigError::Invalid("max_retries must be > 0")),
            r matches Ok(c) ==> c.wf() && c.settings() == (self.threshold, self.max_retries, self.resync_interval)
                && calibrated_clock(c),
    {
        if self.max_retries == 0 {
            return Err(ConfigError::Invalid("max_retries must be > 0"));
        }
        Ok(self.build_unchecked())
    }

    fn build_unchecked(self) -> (r: RealtimeClock)
        requires self.max_retries > 0,
        ensures
            r.wf() && r.settings() == (self.threshold, self.max_retries, self.resync_interval),
            calibrated_clock(r),
    {
        let cal = RealtimeClock::calibrate(self.threshold, self.max_retries);
        let r = self.build_from(cal);
        proof {
            assert(is_calibration(cal, r.settings().0.nanos, r.settings().1 as nat));
        }
        r
    }

    /// Build the clock from calibration `cal`: both anchors are the
    /// calibration's instant, the base nanos its wall reading, the gap its
    /// gap, and the clock is accurate exactly when that gap is within the
    /// threshold.
    pub fn build_from(self, cal: Calibration) -> (r: RealtimeClock)
        requires
            self.max_retries > 0,
            -(SPAN_NANOS_LIMIT as int) < cal.nanos < SPAN_NANOS_LIMIT,
        ensures
            r.wf(),
            r.settings() == (self.threshold, self.max_retries, self.resync_interval),
            r.anchors() == (cal.instant, cal.instant),
            r.base() == cal.nanos,
            r.calibration() == (cal.gap.nanos <= self.threshold.nanos, cal.gap),
    {
        let accurate = cal.gap.nanos <= self.threshold.nanos;
        let last = cal.instant;
        RealtimeClock {
            base_instant: cal.instant,
            base_nanos: cal.nanos,
            last_resync: last,
            resync_interval: self.resync_interval,
            threshold: self.threshold,
            max_retries: self.max_retries,
            calibration_gap: cal.gap,
            accurate,
        }
    }
}

/// Sync source under manual control: UTC nanos are a base plus the elapsed
/// span, which only moves when told to.
#[derive(Clone, Debug)]
pub struct TestClock {
    elapsed: Duration,
    base_nanos: i128,
    base_instant: Instant,
}

impl TestClock {
    /// UTC nanos at elapsed zero.
    pub closed spec fn base(&self) -> i128 {
        self.base_nanos
    }

    /// The elapsed span.
    pub closed spec fn elapsed_spec(&self) -> Duration {
        self.elapsed
    }

    /// The instant at elapsed zero, from which synced instants are offset.
    pub closed spec fn origin(&self) -> Instant {
        self.base_instant
    }

    /// A clock at UTC nanos 0 with nothing elapsed.
    pub fn new() -> (r: TestClock)
        ensures r.base() == 0, r.elapsed_spec().nanos == 0,
    {
        TestClock { elapsed: Duration { nanos: 0 }, base_nanos: 0, base_instant: instant_now() }
    }

    /// A clock at UTC nanos `nanos` with nothing elapsed.
    pub fn starting_at(nanos: i128) -> (r: TestClock)
        ensures r.base() == nanos, r.elapsed_spec().nanos == 0,
    {
        TestClock { elapsed: Duration { nanos: 0 }, base_nanos: nanos, base_instant: instant_now() }
    }

    /// Write the clock: UTC nanos are the base plus the elapsed span, and
    /// the instant is the origin offset by that span: the origin itself
    /// when nothing has elapsed, another instant otherwise (left as it was
    /// when the offset instant is outside the clock's range).
    pub fn sync(&self, clock: &mut Clock)
        requires
            self.elapsed_spec().nanos <= i128::MAX,
            self.base() + self.elapsed_spec().nanos <= i128::MAX,
        ensures
            final(clock).unix_nanos == self.base() + self.elapsed_spec().nanos,
            self.elapsed_spec().nanos == 0 ==> final(clock).instant == self.origin(),
            self.elapsed_spec().nanos != 0 ==> final(clock).instant != self.origin()
                || final(clock).instant == old(clock).instant,
    {
        write_offset_instant(&mut clock.instant, self.base_instant, self.elapsed.nanos);
        clock.unix_nanos = self.base_nanos + self.elapsed.nanos as i128;
    }

    /// Advance the elapsed span.
    pub fn advance(&mut self, duration: Duration)
        requires old(self).elapsed_spec().nanos + duration.nanos <= u128::MAX,
        ensures
            final(self).elapsed_spec().nanos == old(self).elapsed_spec().nanos + duration.nanos,
            final(self).base() == old(self).base(),
            final(self).origin() == old(self).origin(),
    {
        self.elapsed = Duration { nanos: self.elapsed.nanos + duration.nanos };
    }

    /// Set the elapsed span.
    pub fn set_elapsed(&mut self, elapsed: Duration)
        ensures
            final(self).elapsed_spec() == elapsed,
            final(self).base() == old(self).base(),
            final(self).origin() == old(self).origin(),
    {
        self.elapsed = elapsed;
    }

    /// Set the base UTC nanos and clear the elapsed span.
    pub fn set_nanos(&mut self, nanos: i128)
        ensures
            final(self).base() == nanos,
            final(self).elapsed_spec().nanos == 0,
            final(self).origin() == old(self).origin(),
    {
        self.base_nanos = nanos;
        self.elapsed = Duration { nanos: 0 };
    }

    /// The elapsed span.
    pub fn elapsed(&self) -> (r: Duration)
        ensures r == self.elapsed_spec(),
    {
        self.elapsed
    }

    /// Clear the elapsed span.
    pub fn reset(&mut self)
        ensures
            final(self).elapsed_spec().nanos == 0,
            final(self).base() == old(self).base(),
            final(self).origin() == old(self).origin(),
    {
        self.elapsed = Duration { nanos: 0 };
    }
}

impl Default for TestClock {
    fn default() -> (r: TestClock)
        ensures r.base() == 0, r.elapsed_spec().nanos == 0,
    {
        TestClock::new()
    }
}

/// Sync source replaying `[start, end]` at a fixed step: each sync writes
/// the current position, then advances it by one step, stopping at `end`.
#[derive(Clone, Debug)]
pub struct HistoricalClock {
    start_nanos: i128,
    end_nanos: i128,
    current_nanos: i128,
    step_nanos: i128,
    base_instant: Instant,
    exhausted: bool,
}

/// Abstract state of a [`HistoricalClock`].
pub struct Replay {
    /// First position.
    pub start: int,
    /// Last position.
    pub end: int,
    /// Current position.
    pub current: int,
    /// Step between positions.
    pub step: int,
    /// Whether the position reached `end`.
    pub exhausted: bool,
}

impl View for HistoricalClock {
    type V = Replay;

    closed spec fn view(&self) -> Replay {
        Replay {
            start: self.start_nanos as int,
            end: self.end_nanos as int,
            current: self.current_nanos as int,
            step: self.step_nanos as int,
            exhausted: self.exhausted,
        }
    }
}

impl HistoricalClock {
    /// The instant at the start position, from which synced instants are
    /// offset.
    pub closed spec fn origin(&self) -> Instant {
        self.base_instant
    }

    /// Invariant: a nonempty range, a positive step, the position within
    /// the range, exhaustion exactly at its end, and a position that is the
    /// end or a whole number of steps from the start.
    pub open spec fn wf(&self) -> bool {
        &&& self@.start < self@.end
        &&& self@.step > 0
        &&& self@.start <= self@.current <= self@.end
        &&& self@.exhausted ==> self@.current == self@.end
        &&& !self@.exhausted ==> self@.current < self@.end
        &&& self@.current == self@.end || exists|k: nat| #[trigger] on_grid(self@, k)
    }

    /// A replay of `[start_nanos, end_nanos]` by `step`; the range must be
    /// nonempty and the step positive.
    pub fn new(start_nanos: i128, end_nanos: i128, step: Duration) -> (r: Result<HistoricalClock, ConfigError>)
        ensures
            (start_nanos >= end_nanos || step.nanos == 0 || step.nanos > i128::MAX) <==> r is Err,
            start_nanos >= end_nanos ==> r == Err::<HistoricalClock, ConfigError>(ConfigError::Invalid("start_nanos must be < end_nanos")),
            start_nanos < end_nanos && step.nanos == 0 ==> r == Err::<HistoricalClock, ConfigError>(ConfigError::Invalid("step must be > 0")),
            start_nanos < end_nanos && step.nanos > i128::MAX ==> r == Err::<HistoricalClock, ConfigError>(ConfigError::Invalid("step must fit in i128 nanoseconds")),
            r matches Ok(c) ==> c.wf() && c@ == (Replay {
                start: start_nanos as int, end: end_nanos as int, current: start_nanos as int,
                step: step.nanos as int, exhausted: false,
            }),
    {
        if start_nanos >= end_nanos {
            return Err(ConfigError::Invalid("start_nanos must be < end_nanos"));
        }
        if step.is_zero() {
            return Err(ConfigError::Invalid("step must be > 0"));
        }
        if step.nanos > i128::MAX as u128 {
            return Err(ConfigError::Invalid("step must fit in i128 nanoseconds"));
        }
        let c = HistoricalClock {
            start_nanos,
            end_nanos,
            current_nanos: start_nanos,
            step_nanos: step.nanos as i128,
            base_instant: instant_now(),
            exhausted: false,
        };
        proof {
            assert(0nat * c@.step == 0) by (nonlinear_arith);
            assert(on_grid(c@, 0));
        }
        Ok(c)
    }

    /// Write the current position, then advance by one step, clamping at
    /// the end (which exhausts the replay). The instant written is the
    /// origin offset by the span from the start to the position: the origin
    /// itself at the start, another instant after it (left as it was when
    /// the offset instant is outside the clock's range).
    pub fn sync(&mut self, clock: &mut Clock)
        requires old(self).wf(),
        ensures
            final(self).wf(),
            final(clock).unix_nanos == old(self)@.current,
            old(self)@.current == old(self)@.start ==> final(clock).instant == old(self).origin(),
            old(self)@.current != old(self)@.start ==> final(clock).instant != old(self).origin()
                || final(clock).instant == old(clock).instant,
            final(self)@ == next_position(old(self)@),
            final(self).origin() == old(self).origin(),
    {
        let elapsed: u64 = match self.current_nanos.checked_sub(self.start_nanos) {
            Some(d) => if d > u64::MAX as i128 { u64::MAX } else { d as u64 },
            None => u64::MAX,
        };
        write_offset_instant(&mut clock.instant, self.base_instant, elapsed as u128);
        clock.unix_nanos = self.current_nanos;
        if !self.exhausted {
            match self.current_nanos.checked_add(self.step_nanos) {
                Some(n) => {
                    if n >= self.end_nanos {
                        self.current_nanos = self.end_nanos;
                        self.exhausted = true;
                    } else {
                        let ghost r0 = old(self)@;
                        self.current_nanos = n;
                        proof {
                            let k = choose|k: nat| #[trigger] on_grid(r0, k);
                            assert((k + 1) * r0.step == k * r0.step + r0.step) by (nonlinear_arith);
                            assert(on_grid(self@, k + 1));
                        }
                    }
                },
                None => {
                    self.current_nanos = self.end_nanos;
                    self.exhausted = true;
                },
            }
        }
    }

    /// Whether the replay reached its end.
    pub fn is_exhausted(&self) -> (r: bool)
        ensures r == self@.exhausted,
    {
        self.exhausted
    }

    /// Current replay position.
    pub fn current_nanos(&self) -> (r: i128)
        ensures r == self@.current,
    {
        self.current_nanos
    }

    /// Return to the start.
    pub fn reset(&mut self)
        requires old(self).wf(),
        ensures
            final(self).wf(),
            final(self)@ == (Replay { current: old(self)@.start, exhausted: false, ..old(self)@ }),
            final(self).origin() == old(self).origin(),
    {
        self.current_nanos = self.start_nanos;
        self.exhausted = false;
        proof {
            assert(0nat * self@.step == 0) by (nonlinear_arith);
            assert(on_grid(self@, 0));
        }
    }
}

/// The position of `r` is `k` steps from its start.
pub open spec fn on_grid(r: Replay, k: nat) -> bool {
    r.current == r.start + k * r.step
}

/// The replay state after one sync.
pub open spec fn next_position(r: Replay) -> Replay {
    if r.exhausted {
        r
    } else if r.current + r.step >= r.end {
        Replay { current: r.end, exhausted: true, ..r }
    } else {
        Replay { current: r.current + r.step, ..r }
    }
}

/// After `k` syncs from the start, the position is `start + k * step`
/// capped at `end`, and the replay is exhausted exactly when the cap was
/// reached.
pub open spec fn replay_after(r: Replay, k: nat) -> Replay
    decreases k,
{
    if k == 0 { r } else { next_position(replay_after(r, (k - 1) as nat)) }
}

/// A replay never passes its end, and once exhausted it stays put.
pub proof fn lemma_replay_bounded(r: Replay, k: nat)
    requires r.start < r.end, r.step > 0, r.start <= r.current <= r.end,
        r.exhausted ==> r.current == r.end, !r.exhausted ==> r.current < r.end,
    ensures
        replay_after(r, k).start == r.start,
        replay_after(r, k).end == r.end,
        replay_after(r, k).step == r.step,
        !replay_after(r, k).exhausted ==> replay_after(r, k).current < r.end,
        r.current <= replay_after(r, k).current <= r.end,
        replay_after(r, k).exhausted ==> replay_after(r, k).current == r.end,
        replay_after(r, k).exhausted ==> replay_after(r, k + 1) == replay_after(r, k),
    decreases k,
{
    if k > 0 {
        lemma_replay_bounded(r, (k - 1) as nat);
        assert(replay_after(r, k) == next_position(replay_after(r, (k - 1) as nat)));
    }
    assert(replay_after(r, k + 1) == next_position(replay_after(r, k)));
}

/// From the start, after `k` syncs the position is `start + k * step`,
/// capped at `end`; the replay is exhausted exactly when the cap is reached.
pub proof fn lemma_replay_position(r: Replay, k: nat)
    requires r.start < r.end, r.step > 0, r.current == r.start, !r.exhausted,
    ensures
        replay_after(r, k).current == (if r.start + k * r.step >= r.end { r.end } else { r.start + k * r.step }),
        replay_after(r, k).exhausted == (r.start + k * r.step >= r.end),
    decreases k,
{
    if k == 0 {
        assert(k * r.step == 0) by (nonlinear_arith)
            requires k == 0;
    } else {
        let k1 = (k - 1) as nat;
        lemma_replay_position(r, k1);
        lemma_replay_bounded(r, k1);
        assert(replay_after(r, k) == next_position(replay_after(r, k1)));
        assert(k1 * r.step + r.step == k * r.step) by (nonlinear_arith)
            requires k1 + 1 == k;
        assert(k1 * r.step >= 0) by (nonlinear_arith)
            requires r.step > 0;
    }
}

/// Replaying from the start, the position is at the start only before the
/// first sync: after any sync it has moved on, so every sync after the
/// first writes an instant other than the origin (or, past the clock's
/// range, leaves the instant as it was) while the first writes the origin.
pub proof fn lemma_replay_leaves_start(r: Replay, k: nat)
    requires r.start < r.end, r.step > 0, r.current == r.start, !r.exhausted,
    ensures
        (replay_after(r, k).current == r.start) == (k == 0),
        replay_after(r, k).current - r.start == (if k * r.step >= r.end - r.start { r.end - r.start } else { k * r.step }),
{
    lemma_replay_position(r, k);
    if k > 0 {
        assert(k * r.step >= r.step) by (nonlinear_arith)
            requires k >= 1, r.step > 0;
    } else {
        assert(k * r.step == 0) by (nonlinear_arith)
            requires k == 0;
    }
}

} // verus!

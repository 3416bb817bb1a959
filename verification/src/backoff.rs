//! How long to wait between attempts, and when the machine was asleep.

use vstd::prelude::*;

use crate::clock::{monotonic_nanos, valid_time};
use crate::text::{cat3, decimal, number_text};
use vstd::arithmetic::power2::{lemma_pow2_pos, lemma_pow2_strictly_increases, lemma_pow2_unfold, pow2};

verus! {

/// No two attempts are scheduled closer than this.
pub const ABSOLUTE_MIN_INTERVAL_SECS: u64 = 15;

/// After the machine wakes up nothing is sent for at least this long.
pub const MIN_WAKE_DELAY_SECS: u64 = 60;

/// Nanoseconds in a day.
pub const DAY_NANOS: i128 = 86_400_000_000_000;

/// A double-precision number, held by its IEEE 754 encoding.
#[derive(Clone, Copy, Debug, PartialEq, Eq, Structural)]
pub struct Real {
    pub bits: u64,
}

/// Two to the power 52: the number of fractions under one exponent.
pub const FRACTIONS: u64 = 0x10_0000_0000_0000;

/// The encoding of one.
pub const ONE_BITS: u64 = 0x3ff0_0000_0000_0000;

/// The encoding of one half.
pub const HALF_BITS: u64 = 0x3fe0_0000_0000_0000;

/// The encoding of infinity.
pub const INFINITY_BITS: u64 = 0x7ff0_0000_0000_0000;

/// The encoding of negative zero: the sign bit alone.
pub const NEGATIVE_ZERO_BITS: u64 = 0x8000_0000_0000_0000;

impl Real {
    /// Whether the sign bit is set.
    pub open spec fn negative(self) -> bool {
        self.bits >= NEGATIVE_ZERO_BITS
    }

    /// The encoding without its sign bit.
    pub open spec fn unsigned_bits(self) -> int {
        if self.negative() {
            self.bits - NEGATIVE_ZERO_BITS
        } else {
            self.bits as int
        }
    }

    /// Whether the encoding is that of a number, not of an infinity or of no number.
    pub open spec fn finite(self) -> bool {
        self.unsigned_bits() / (FRACTIONS as int) < 2047
    }

    /// The absolute value of a finite number, counted in units of the smallest
    /// positive one (two to the power -1074).
    pub open spec fn magnitude(self) -> int {
        let exponent = self.unsigned_bits() / (FRACTIONS as int);
        let fraction = self.unsigned_bits() % (FRACTIONS as int);
        if exponent == 0 {
            fraction
        } else {
            (FRACTIONS + fraction) * pow2((exponent - 1) as nat)
        }
    }

    /// Whether the encoding is that of no number.
    pub open spec fn not_a_number(self) -> bool {
        self.unsigned_bits() > INFINITY_BITS
    }

    /// Whether two encodings stand for equal numbers: the two zeros are equal,
    /// and what is no number equals nothing.
    pub open spec fn equal(self, other: Real) -> bool {
        &&& !self.not_a_number()
        &&& !other.not_a_number()
        &&& self.bits == other.bits || self.unsigned_bits() == 0 && other.unsigned_bits() == 0
    }

    /// Whether the number is finite and at least one.
    pub open spec fn at_least_one(self) -> bool {
        self.finite() && !self.negative() && self.magnitude() >= (Real { bits: ONE_BITS }).magnitude()
    }

    /// Whether the number is finite and lies between zero and one half.
    pub open spec fn at_most_half(self) -> bool {
        &&& self.finite()
        &&& self.magnitude() <= (Real { bits: HALF_BITS }).magnitude()
        &&& !self.negative() || self.magnitude() == 0
    }
}

/// The values of finite non-negative numbers are ordered as their encodings are.
proof fn magnitude_orders_as_bits(low: Real, high: Real)
    requires
        !low.negative(),
        !high.negative(),
        low.bits < high.bits,
    ensures
        low.magnitude() < high.magnitude(),
        low.magnitude() >= 0,
{
    let f = FRACTIONS as int;
    let e1 = low.bits as int / f;
    let e2 = high.bits as int / f;
    let m1 = low.bits as int % f;
    let m2 = high.bits as int % f;
    assert(low.bits as int == f * e1 + m1 && 0 <= m1 < f) by (nonlinear_arith)
        requires
            f == 0x10_0000_0000_0000,
            e1 == low.bits as int / f,
            m1 == low.bits as int % f,
    ;
    assert(high.bits as int == f * e2 + m2 && 0 <= m2 < f) by (nonlinear_arith)
        requires
            f == 0x10_0000_0000_0000,
            e2 == high.bits as int / f,
            m2 == high.bits as int % f,
    ;
    assert(e1 >= 0) by (nonlinear_arith)
        requires
            f > 0,
            low.bits as int == f * e1 + m1,
            m1 < f,
            low.bits >= 0,
    ;
    assert(e1 <= e2) by (nonlinear_arith)
        requires
            low.bits < high.bits,
            low.bits as int == f * e1 + m1,
            high.bits as int == f * e2 + m2,
            0 <= m1 < f,
            0 <= m2 < f,
    ;
    if e1 > 0 {
        lemma_pow2_pos((e1 - 1) as nat);
        let p = pow2((e1 - 1) as nat) as int;
        assert(0 <= (f + m1) * p < 2 * f * p) by (nonlinear_arith)
            requires
                f > 0,
                0 <= m1 < f,
                p > 0,
        ;
    }
    if e1 == e2 {
        assert(m1 < m2);
        if e1 > 0 {
            let p = pow2((e1 - 1) as nat) as int;
            assert((f + m1) * p < (f + m2) * p) by (nonlinear_arith)
                requires
                    m1 < m2,
                    p > 0,
            ;
        }
    } else {
        lemma_pow2_pos((e2 - 1) as nat);
        let q = pow2((e2 - 1) as nat) as int;
        assert((f + m2) * q >= f * q) by (nonlinear_arith)
            requires
                0 <= m2,
                q > 0,
        ;
        if e1 == 0 {
            assert(f * q >= f) by (nonlinear_arith)
                requires
                    f > 0,
                    q >= 1,
            ;
        } else {
            let p = pow2((e1 - 1) as nat) as int;
            lemma_pow2_unfold(e1 as nat);
            if e1 < e2 - 1 {
                lemma_pow2_strictly_increases(e1 as nat, (e2 - 1) as nat);
            }
            assert(q >= 2 * p);
            assert(f * q >= 2 * f * p) by (nonlinear_arith)
                requires
                    f > 0,
                    q >= 2 * p,
            ;
        }
    }
}

impl Real {
    /// Whether two encodings stand for equal numbers.
    pub fn equals(&self, other: &Real) -> (r: bool)
        ensures
            r == self.equal(*other),
    {
        let left: u64 = if self.bits >= NEGATIVE_ZERO_BITS {
            self.bits - NEGATIVE_ZERO_BITS
        } else {
            self.bits
        };
        let right: u64 = if other.bits >= NEGATIVE_ZERO_BITS {
            other.bits - NEGATIVE_ZERO_BITS
        } else {
            other.bits
        };
        left <= INFINITY_BITS && right <= INFINITY_BITS && (self.bits == other.bits || left == 0
            && right == 0)
    }

    /// Whether the number is finite and at least one.
    pub fn is_at_least_one(&self) -> (r: bool)
        ensures
            r == self.at_least_one(),
    {
        proof {
            let one = Real { bits: ONE_BITS };
            if !self.negative() {
                if self.bits < ONE_BITS {
                    magnitude_orders_as_bits(*self, one);
                } else if self.bits > ONE_BITS {
                    magnitude_orders_as_bits(one, *self);
                }
            }
        }
        ONE_BITS <= self.bits && self.bits < INFINITY_BITS
    }

    /// Whether the number is finite and lies between zero and one half.
    pub fn is_at_most_half(&self) -> (r: bool)
        ensures
            r == self.at_most_half(),
    {
        proof {
            let half = Real { bits: HALF_BITS };
            let zero = Real { bits: 0 };
            if !self.negative() {
                if self.bits < HALF_BITS {
                    magnitude_orders_as_bits(*self, half);
                } else if self.bits > HALF_BITS {
                    magnitude_orders_as_bits(half, *self);
                }
            } else {
                let positive = Real { bits: (self.bits - NEGATIVE_ZERO_BITS) as u64 };
                assert(positive.magnitude() == self.magnitude());
                if positive.bits > 0 {
                    magnitude_orders_as_bits(zero, positive);
                } else {
                    assert(self.magnitude() == 0);
                    magnitude_orders_as_bits(zero, half);
                }
            }
        }
        self.bits <= HALF_BITS || self.bits == NEGATIVE_ZERO_BITS
    }
}

/// How the waiting time grows from attempt to attempt.
#[derive(Clone, Copy, Debug, PartialEq, Eq, Structural)]
pub struct RetryPolicy {
    pub base_delay_secs: u64,
    pub multiplier: Real,
    pub max_delay_secs: u64,
    pub jitter_ratio: Real,
    pub max_empty_replies: u8,
    pub wake_delay_secs: u64,
}

/// What is wrong with a retry policy.
#[derive(Clone, Copy, Debug, PartialEq, Eq, Structural)]
pub enum RetryPolicyError {
    IntervalTooShort(u64),
    MaxBelowBase,
    InvalidMultiplier,
    InvalidJitter,
    WakeDelayTooShort,
}

impl RetryPolicyError {
    /// The text that the user is shown.
    pub open spec fn text(self) -> Seq<char> {
        match self {
            RetryPolicyError::IntervalTooShort(secs) => "重试间隔 "@ + decimal(secs as nat)
                + " 秒低于 15 秒安全下限"@,
            RetryPolicyError::MaxBelowBase => "最大重试间隔不能小于初始间隔"@,
            RetryPolicyError::InvalidMultiplier => "重试倍率必须是大于或等于 1.0 的有限数值"@,
            RetryPolicyError::InvalidJitter => "抖动比例必须是 0 到 0.5 之间的有限数值"@,
            RetryPolicyError::WakeDelayTooShort => "系统唤醒后的等待时间不能少于 60 秒"@,
        }
    }

    /// The text that the user is shown.
    pub fn message(&self) -> (r: String)
        ensures
            r@ == self.text(),
    {
        match self {
            RetryPolicyError::IntervalTooShort(secs) => cat3(
                "重试间隔 ",
                number_text(*secs).as_str(),
                " 秒低于 15 秒安全下限",
            ),
            RetryPolicyError::MaxBelowBase => "最大重试间隔不能小于初始间隔".to_owned(),
            RetryPolicyError::InvalidMultiplier => "重试倍率必须是大于或等于 1.0 的有限数值".to_owned(),
            RetryPolicyError::InvalidJitter => "抖动比例必须是 0 到 0.5 之间的有限数值".to_owned(),
            RetryPolicyError::WakeDelayTooShort => "系统唤醒后的等待时间不能少于 60 秒".to_owned(),
        }
    }
}

/// The default policy: 30 seconds, growing by 1.7 up to ten minutes, with a
/// jitter of 15 percent.
pub open spec fn default_policy() -> RetryPolicy {
    RetryPolicy {
        base_delay_secs: 30,
        multiplier: Real { bits: 0x3ffb_3333_3333_3333 },
        max_delay_secs: 600,
        jitter_ratio: Real { bits: 0x3fc3_3333_3333_3333 },
        max_empty_replies: 5,
        wake_delay_secs: MIN_WAKE_DELAY_SECS,
    }
}

impl Default for RetryPolicy {
    fn default() -> (r: RetryPolicy)
        ensures
            r == default_policy(),
    {
        RetryPolicy {
            base_delay_secs: 30,
            multiplier: Real { bits: 0x3ffb_3333_3333_3333 },
            max_delay_secs: 600,
            jitter_ratio: Real { bits: 0x3fc3_3333_3333_3333 },
            max_empty_replies: 5,
            wake_delay_secs: MIN_WAKE_DELAY_SECS,
        }
    }
}

impl RetryPolicy {
    /// The first thing that is wrong with the policy.
    pub open spec fn problem(self) -> Option<RetryPolicyError> {
        if self.base_delay_secs < ABSOLUTE_MIN_INTERVAL_SECS {
            Some(RetryPolicyError::IntervalTooShort(self.base_delay_secs))
        } else if self.max_delay_secs < self.base_delay_secs {
            Some(RetryPolicyError::MaxBelowBase)
        } else if !self.multiplier.at_least_one() {
            Some(RetryPolicyError::InvalidMultiplier)
        } else if !self.jitter_ratio.at_most_half() {
            Some(RetryPolicyError::InvalidJitter)
        } else if self.wake_delay_secs < MIN_WAKE_DELAY_SECS {
            Some(RetryPolicyError::WakeDelayTooShort)
        } else {
            None
        }
    }

    /// Checks the policy; the first problem is the error.
    pub fn validate(&self) -> (r: Result<(), RetryPolicyError>)
        ensures
            r == (match self.problem() {
                Some(error) => Err(error),
                None => Ok::<(), RetryPolicyError>(()),
            }),
    {
        if self.base_delay_secs < ABSOLUTE_MIN_INTERVAL_SECS {
            return Err(RetryPolicyError::IntervalTooShort(self.base_delay_secs));
        }
        if self.max_delay_secs < self.base_delay_secs {
            return Err(RetryPolicyError::MaxBelowBase);
        }
        if !self.multiplier.is_at_least_one() {
            return Err(RetryPolicyError::InvalidMultiplier);
        }
        if !self.jitter_ratio.is_at_most_half() {
            return Err(RetryPolicyError::InvalidJitter);
        }
        if self.wake_delay_secs < MIN_WAKE_DELAY_SECS {
            return Err(RetryPolicyError::WakeDelayTooShort);
        }
        Ok(())
    }

    /// Whether two policies hold equal numbers.
    pub open spec fn equal(self, other: RetryPolicy) -> bool {
        &&& self.base_delay_secs == other.base_delay_secs
        &&& self.multiplier.equal(other.multiplier)
        &&& self.max_delay_secs == other.max_delay_secs
        &&& self.jitter_ratio.equal(other.jitter_ratio)
        &&& self.max_empty_replies == other.max_empty_replies
        &&& self.wake_delay_secs == other.wake_delay_secs
    }

    /// Whether two policies hold equal numbers.
    pub fn equals(&self, other: &RetryPolicy) -> (r: bool)
        ensures
            r == self.equal(*other),
    {
        self.base_delay_secs == other.base_delay_secs && self.multiplier.equals(&other.multiplier)
            && self.max_delay_secs == other.max_delay_secs && self.jitter_ratio.equals(
            &other.jitter_ratio,
        ) && self.max_empty_replies == other.max_empty_replies && self.wake_delay_secs
            == other.wake_delay_secs
    }

    /// The delay before the next attempt, given the jittered delay that was drawn.
    pub open spec fn delay(drawn_secs: u64) -> u64 {
        if drawn_secs < ABSOLUTE_MIN_INTERVAL_SECS {
            ABSOLUTE_MIN_INTERVAL_SECS
        } else {
            drawn_secs
        }
    }

    /// The delay before the next attempt in seconds, given the jittered delay
    /// that was drawn: never below the absolute minimum.
    pub fn delay_for(drawn_secs: u64) -> (r: u64)
        ensures
            r == RetryPolicy::delay(drawn_secs),
    {
        if drawn_secs < ABSOLUTE_MIN_INTERVAL_SECS {
            ABSOLUTE_MIN_INTERVAL_SECS
        } else {
            drawn_secs
        }
    }

    /// How long to wait after the machine woke up, in seconds.
    pub open spec fn wake_secs(self) -> u64 {
        if self.wake_delay_secs < MIN_WAKE_DELAY_SECS {
            MIN_WAKE_DELAY_SECS
        } else {
            self.wake_delay_secs
        }
    }

    /// How long to wait after the machine woke up, in seconds: never below a minute.
    pub fn wake_delay(&self) -> (r: u64)
        ensures
            r == self.wake_secs(),
    {
        if self.wake_delay_secs < MIN_WAKE_DELAY_SECS {
            MIN_WAKE_DELAY_SECS
        } else {
            self.wake_delay_secs
        }
    }
}

/// The default policy passes its own check.
pub proof fn default_policy_is_valid()
    ensures
        default_policy().problem() is None,
{
    let one = Real { bits: ONE_BITS };
    let half = Real { bits: HALF_BITS };
    magnitude_orders_as_bits(one, default_policy().multiplier);
    magnitude_orders_as_bits(default_policy().jitter_ratio, half);
}

/// Whatever delay was drawn, the next attempt is at least fifteen seconds away,
/// and a wake-up is followed by at least a minute of rest.
pub proof fn delays_have_floors(policy: RetryPolicy, drawn_secs: u64)
    ensures
        RetryPolicy::delay(drawn_secs) >= 15,
        policy.wake_secs() >= 60,
{
}

/// The times of the attempts of the last day.
#[derive(Clone, Debug, PartialEq, Eq)]
pub struct AttemptLedger(pub Vec<i128>);

impl View for AttemptLedger {
    type V = Seq<i128>;

    open spec fn view(&self) -> Seq<i128> {
        self.0@
    }
}

/// The attempts that lie within the day before `now`.
pub open spec fn recent_attempts(stamps: Seq<i128>, now: i128) -> Seq<i128> {
    stamps.filter(|stamp: i128| now - DAY_NANOS < stamp && stamp <= now)
}

impl Default for AttemptLedger {
    fn default() -> (r: AttemptLedger)
        ensures
            r@ == Seq::<i128>::empty(),
    {
        AttemptLedger(Vec::new())
    }
}

impl AttemptLedger {
    /// Adds an attempt and forgets those that are more than a day old or lie in
    /// the future.
    pub fn record(&mut self, now: i128)
        requires
            valid_time(now as int),
            valid_time(now - DAY_NANOS),
        ensures
            final(self)@ == recent_attempts(old(self)@, now).push(now),
    {
        self.prune(now);
        self.0.push(now);
    }

    fn prune(&mut self, now: i128)
        requires
            valid_time(now as int),
            valid_time(now - DAY_NANOS),
        ensures
            final(self)@ == recent_attempts(old(self)@, now),
    {
        let one_day_ago: i128 = now - DAY_NANOS;
        let ghost keep = |stamp: i128| now - DAY_NANOS < stamp && stamp <= now;
        let mut kept: Vec<i128> = Vec::new();
        let mut i: usize = 0;
        let ghost all = self.0@;
        while i < self.0.len()
            invariant
                all == self.0@,
                i <= all.len(),
                one_day_ago == now - DAY_NANOS,
                keep == (|stamp: i128| now - DAY_NANOS < stamp && stamp <= now),
                kept@ == all.take(i as int).filter(keep),
            decreases self.0.len() - i,
        {
            let stamp: i128 = self.0[i];
            proof {
                reveal(Seq::filter);
                assert(all.take(i + 1).drop_last() =~= all.take(i as int));
            }
            if stamp > one_day_ago && stamp <= now {
                kept.push(stamp);
            }
            i = i + 1;
        }
        assert(all.take(all.len() as int) =~= all);
        self.0 = kept;
    }

    /// A copy of the ledger.
    pub fn copy(&self) -> (r: AttemptLedger)
        ensures
            r@ == self@,
    {
        let mut out: Vec<i128> = Vec::new();
        let mut i: usize = 0;
        while i < self.0.len()
            invariant
                i <= self.0@.len(),
                out@ == self.0@.take(i as int),
            decreases self.0.len() - i,
        {
            out.push(self.0[i]);
            i = i + 1;
            assert(out@ =~= self.0@.take(i as int));
        }
        assert(out@ =~= self.0@);
        AttemptLedger(out)
    }
}

/// After an attempt is recorded, every recorded time lies within the day that
/// ends with that attempt, and the attempt itself is the last of them.
pub proof fn recorded_attempts_are_recent(stamps: Seq<i128>, now: i128)
    ensures
        ({
            let after = recent_attempts(stamps, now).push(now);
            &&& after.last() == now
            &&& forall|i: int| 0 <= i < after.len() ==> now - DAY_NANOS < #[trigger] after[i] <= now
        }),
{
    let keep = |stamp: i128| now - DAY_NANOS < stamp && stamp <= now;
    let kept = stamps.filter(keep);
    assert forall|i: int| 0 <= i < kept.len() + 1 implies now - DAY_NANOS < #[trigger] kept.push(
        now,
    )[i] <= now by {
        if i < kept.len() {
            stamps.lemma_filter_pred(keep, i);
            assert(keep(kept[i]));
        }
    }
}

/// Compares the wall clock with the monotonic clock to notice that the machine
/// has been asleep.
#[derive(Clone, Copy, Debug, PartialEq, Eq, Structural)]
pub struct WakeDetector {
    pub wall: i128,
    pub monotonic: u128,
}

/// How far the wall clock may run ahead of the monotonic clock.
pub const WAKE_TOLERANCE_SECS: u64 = 20;

/// The longest time between two observations of a machine that is awake.
pub const MAX_OBSERVATION_GAP_SECS: u64 = 45;

/// Whether two observations show that the machine slept between them.  Some
/// platforms count suspended time in their monotonic clock and others do not,
/// so a wall clock that ran ahead and a late observation both count.
pub open spec fn slept(
    wall_before: int,
    monotonic_before: int,
    wall: int,
    monotonic: int,
) -> bool {
    let wall_elapsed = if wall < wall_before { 0 } else { wall - wall_before };
    let monotonic_elapsed = if monotonic < monotonic_before { 0 } else { monotonic - monotonic_before };
    wall_elapsed > monotonic_elapsed + WAKE_TOLERANCE_SECS * 1_000_000_000 || wall_elapsed
        > MAX_OBSERVATION_GAP_SECS * 1_000_000_000
}

impl WakeDetector {
    /// A detector whose first observation is the given pair of times.
    pub fn new(wall: i128, monotonic: u128) -> (r: WakeDetector)
        ensures
            r == (WakeDetector { wall, monotonic }),
    {
        WakeDetector { wall, monotonic }
    }

    /// Takes one observation and tells whether the machine slept since the last one.
    pub fn observe(&mut self, wall: i128, monotonic: u128) -> (r: bool)
        requires
            valid_time(old(self).wall as int),
            valid_time(wall as int),
        ensures
            *final(self) == (WakeDetector { wall, monotonic }),
            r == slept(
                old(self).wall as int,
                old(self).monotonic as int,
                wall as int,
                monotonic as int,
            ),
    {
        let wall_elapsed: i128 = if wall < self.wall {
            0
        } else {
            wall - self.wall
        };
        let monotonic_elapsed: u128 = if monotonic < self.monotonic {
            0
        } else {
            monotonic - self.monotonic
        };
        self.wall = wall;
        self.monotonic = monotonic;
        let tolerance: u128 = monotonic_nanos(WAKE_TOLERANCE_SECS);
        let gap: u128 = monotonic_nanos(MAX_OBSERVATION_GAP_SECS);
        let elapsed: u128 = wall_elapsed as u128;
        elapsed > monotonic_elapsed.saturating_add(tolerance) || elapsed > gap
    }
}

/// An observation that follows at once finds no sleep, whatever came before it.
pub proof fn repeated_observation_is_no_wake(wall: int, monotonic: int)
    ensures
        !slept(wall, monotonic, wall, monotonic),
{
}

/// A drawn delay of at least fifteen seconds is waited for as it was drawn, and
/// a shorter one is raised to fifteen; a longer draw never shortens the wait.
pub proof fn drawn_delays_are_kept(shorter: u64, longer: u64)
    requires
        shorter <= longer,
    ensures
        RetryPolicy::delay(shorter) >= shorter,
        shorter >= 15 ==> RetryPolicy::delay(shorter) == shorter,
        shorter < 15 ==> RetryPolicy::delay(shorter) == 15,
        RetryPolicy::delay(shorter) <= RetryPolicy::delay(longer),
{
}

/// A rest after a wake-up of at least a minute is as long as the user set it,
/// and a shorter one is raised to a minute.
pub proof fn wake_rests_are_kept(policy: RetryPolicy)
    ensures
        policy.wake_secs() >= policy.wake_delay_secs,
        policy.wake_delay_secs >= 60 ==> policy.wake_secs() == policy.wake_delay_secs,
        policy.wake_delay_secs < 60 ==> policy.wake_secs() == 60,
{
}

/// The finite numbers of at least one are those whose encodings lie from that
/// of one up to that of infinity; those from zero to one half are the encodings
/// up to that of one half, and negative zero.
pub proof fn bounds_are_bounds_of_encodings(number: Real)
    ensures
        number.at_least_one() <==> 0x3ff0_0000_0000_0000 <= number.bits < 0x7ff0_0000_0000_0000,
        number.at_most_half() <==> number.bits <= 0x3fe0_0000_0000_0000 || number.bits
            == 0x8000_0000_0000_0000,
{
    let one = Real { bits: ONE_BITS };
    let half = Real { bits: HALF_BITS };
    let zero = Real { bits: 0 };
    if !number.negative() {
        if number.bits < ONE_BITS {
            magnitude_orders_as_bits(number, one);
        } else if number.bits > ONE_BITS {
            magnitude_orders_as_bits(one, number);
        }
        if number.bits < HALF_BITS {
            magnitude_orders_as_bits(number, half);
        } else if number.bits > HALF_BITS {
            magnitude_orders_as_bits(half, number);
        }
    } else {
        let positive = Real { bits: (number.bits - NEGATIVE_ZERO_BITS) as u64 };
        assert(positive.magnitude() == number.magnitude());
        if positive.bits > 0 {
            magnitude_orders_as_bits(zero, positive);
        } else {
            magnitude_orders_as_bits(zero, half);
        }
    }
}

/// A policy is accepted exactly where its first delay is at least fifteen
/// seconds and at most the longest, the delays do not shrink, the jitter is at
/// most one half, and the rest after a wake-up is at least a minute.
pub proof fn accepted_policies_keep_the_limits(policy: RetryPolicy)
    ensures
        policy.problem() is None <==> {
            &&& 15 <= policy.base_delay_secs <= policy.max_delay_secs
            &&& 0x3ff0_0000_0000_0000 <= policy.multiplier.bits < 0x7ff0_0000_0000_0000
            &&& policy.jitter_ratio.bits <= 0x3fe0_0000_0000_0000 || policy.jitter_ratio.bits
                == 0x8000_0000_0000_0000
            &&& 60 <= policy.wake_delay_secs
        },
        policy.base_delay_secs < 15 ==> policy.problem() == Some(
            RetryPolicyError::IntervalTooShort(policy.base_delay_secs),
        ),
        policy.problem() is Some && policy.problem()->0 is MaxBelowBase ==> 15 <= policy.base_delay_secs
            && policy.max_delay_secs < policy.base_delay_secs,
        policy.problem() is Some && policy.problem()->0 is InvalidMultiplier ==> !(
        0x3ff0_0000_0000_0000 <= policy.multiplier.bits < 0x7ff0_0000_0000_0000),
        policy.problem() is Some && policy.problem()->0 is InvalidJitter
            ==> policy.jitter_ratio.bits > 0x3fe0_0000_0000_0000,
        policy.problem() is Some && policy.problem()->0 is WakeDelayTooShort
            ==> policy.wake_delay_secs < 60,
{
    bounds_are_bounds_of_encodings(policy.multiplier);
    bounds_are_bounds_of_encodings(policy.jitter_ratio);
}

/// Where a policy has several faults, they are named in a fixed order: the
/// first delay, the longest delay, the growth, the jitter, the rest after a wake-up.
pub proof fn faults_of_a_policy_are_named_in_order(policy: RetryPolicy)
    requires
        policy.base_delay_secs >= 15,
    ensures
        policy.max_delay_secs < policy.base_delay_secs ==> policy.problem() == Some(
            RetryPolicyError::MaxBelowBase,
        ),
        policy.max_delay_secs >= policy.base_delay_secs && policy.multiplier.bits
            < 0x3ff0_0000_0000_0000 ==> policy.problem() == Some(
            RetryPolicyError::InvalidMultiplier,
        ),
        policy.max_delay_secs >= policy.base_delay_secs && policy.multiplier.bits
            >= 0x7ff0_0000_0000_0000 ==> policy.problem() == Some(
            RetryPolicyError::InvalidMultiplier,
        ),
        policy.max_delay_secs >= policy.base_delay_secs && 0x3ff0_0000_0000_0000
            <= policy.multiplier.bits < 0x7ff0_0000_0000_0000 && policy.jitter_ratio.bits
            > 0x3fe0_0000_0000_0000 && policy.jitter_ratio.bits != 0x8000_0000_0000_0000
            ==> policy.problem() == Some(RetryPolicyError::InvalidJitter),
{
    bounds_are_bounds_of_encodings(policy.multiplier);
    bounds_are_bounds_of_encodings(policy.jitter_ratio);
}

/// Two numbers are equal where their encodings are and stand for a number, or
/// where both are zero; what is no number equals nothing.
pub proof fn numbers_are_equal_by_value(left: Real, right: Real)
    ensures
        left.equal(right) == right.equal(left),
        left.equal(right) && left.bits != right.bits ==> {
            ||| left.bits == 0 && right.bits == 0x8000_0000_0000_0000
            ||| right.bits == 0 && left.bits == 0x8000_0000_0000_0000
        },
        left.bits == 0 && right.bits == 0x8000_0000_0000_0000 ==> left.equal(right),
        left.equal(left) <==> left.bits <= 0x7ff0_0000_0000_0000 || 0x8000_0000_0000_0000
            <= left.bits <= 0xfff0_0000_0000_0000,
        left.equal(right) ==> left.equal(left) && right.equal(right),
{
}

/// Two policies are equal only where each of their numbers is, and a change of
/// any single number is noticed.
pub proof fn policies_are_equal_by_each_number(left: RetryPolicy, right: RetryPolicy)
    ensures
        left.equal(right) ==> left.base_delay_secs == right.base_delay_secs && left.max_delay_secs
            == right.max_delay_secs && left.max_empty_replies == right.max_empty_replies
            && left.wake_delay_secs == right.wake_delay_secs && left.multiplier.equal(
            right.multiplier,
        ) && left.jitter_ratio.equal(right.jitter_ratio),
        left == right && left.problem() is None ==> left.equal(right),
{
    bounds_are_bounds_of_encodings(left.multiplier);
    bounds_are_bounds_of_encodings(left.jitter_ratio);
}

/// An attempt is remembered exactly for a day: a stamp stays where it is less
/// than a day old and not in the future, and goes otherwise.
pub proof fn attempts_are_remembered_for_a_day(stamps: Seq<i128>, now: i128, stamp: i128)
    ensures
        recent_attempts(stamps, now).contains(stamp) <==> stamps.contains(stamp) && now
            - 86_400_000_000_000 < stamp <= now,
        recent_attempts(stamps, now).len() <= stamps.len(),
        (forall|i: int|
            0 <= i < stamps.len() ==> now - 86_400_000_000_000 < #[trigger] stamps[i] <= now)
            ==> recent_attempts(stamps, now) == stamps,
    decreases stamps.len(),
{
    reveal(Seq::filter);
    let keep = |stamp: i128| now - DAY_NANOS < stamp && stamp <= now;
    if stamps.len() > 0 {
        let front = stamps.drop_last();
        attempts_are_remembered_for_a_day(front, now, stamp);
        let kept = front.filter(keep);
        assert(recent_attempts(front, now) == kept);
        assert(stamps == front.push(stamps.last()));
        assert(stamps.contains(stamp) <==> front.contains(stamp) || stamps.last() == stamp) by {
            if stamps.contains(stamp) {
                let i = choose|i: int| 0 <= i < stamps.len() && stamps[i] == stamp;
                if i < front.len() {
                    assert(front[i] == stamp);
                }
            }
            if front.contains(stamp) {
                let i = choose|i: int| 0 <= i < front.len() && front[i] == stamp;
                assert(stamps[i] == stamp);
            }
        }
        let pushed = kept.push(stamps.last());
        assert(pushed.contains(stamp) <==> kept.contains(stamp) || stamps.last() == stamp) by {
            assert(pushed[kept.len() as int] == stamps.last());
            if kept.contains(stamp) {
                let i = choose|i: int| 0 <= i < kept.len() && kept[i] == stamp;
                assert(pushed[i] == stamp);
            }
        }
        if forall|i: int|
            0 <= i < stamps.len() ==> now - 86_400_000_000_000 < #[trigger] stamps[i] <= now {
            assert forall|i: int| 0 <= i < front.len() implies now - 86_400_000_000_000
                < #[trigger] front[i] <= now by {
                assert(stamps[i] == front[i]);
            }
        }
    }
}

/// The machine slept where the wall clock moved by more than 45 seconds, or by
/// more than 20 seconds beyond the monotonic clock; otherwise it did not, and a
/// wall clock that was set back shows no sleep.
pub proof fn sleep_shows_in_the_clocks(
    wall_before: int,
    monotonic_before: int,
    wall: int,
    monotonic: int,
)
    requires
        monotonic_before <= monotonic,
    ensures
        wall - wall_before > 45_000_000_000 ==> slept(
            wall_before,
            monotonic_before,
            wall,
            monotonic,
        ),
        wall - wall_before > monotonic - monotonic_before + 20_000_000_000 ==> slept(
            wall_before,
            monotonic_before,
            wall,
            monotonic,
        ),
        wall - wall_before <= 45_000_000_000 && wall - wall_before <= monotonic - monotonic_before
            + 20_000_000_000 ==> !slept(wall_before, monotonic_before, wall, monotonic),
        wall <= wall_before ==> !slept(wall_before, monotonic_before, wall, monotonic),
{
}

/// What the user reads of a faulty policy.
pub proof fn faults_of_a_policy_are_told(secs: u64)
    ensures
        RetryPolicyError::IntervalTooShort(secs).text() == "重试间隔 "@ + decimal(secs as nat)
            + " 秒低于 15 秒安全下限"@,
        RetryPolicyError::MaxBelowBase.text() == "最大重试间隔不能小于初始间隔"@,
        RetryPolicyError::InvalidMultiplier.text() == "重试倍率必须是大于或等于 1.0 的有限数值"@,
        RetryPolicyError::InvalidJitter.text() == "抖动比例必须是 0 到 0.5 之间的有限数值"@,
        RetryPolicyError::WakeDelayTooShort.text() == "系统唤醒后的等待时间不能少于 60 秒"@,
{
}

} // verus!

//! A span of time with nanosecond precision, which may be negative.
//!
//! A `Duration` is stored as whole seconds plus a nanosecond remainder that always has the
//! same sign as the seconds and lies strictly between -10^9 and 10^9.  Its mathematical model
//! (`d@`) is the total signed number of nanoseconds it spans.
use vstd::prelude::*;
use vstd::arithmetic::div_mod::{
    lemma_fundamental_div_mod_converse, lemma_div_denominator, lemma_hoist_over_denominator,
    lemma_div_is_ordered,
};
use vstd::std_specs::ops::{AddSpec, SubSpec, MulSpec, DivSpec, NegSpec};

verus! {

/// Number of nanoseconds in one second.
pub const NANOS_PER_SECOND: i64 = 1_000_000_000;

/// `max_nanos()` as a machine integer.
pub const MAX_NANOS: i128 = 9_223_372_036_854_775_807_999_999_999;

/// `min_nanos()` as a machine integer.
pub const MIN_NANOS: i128 = -9_223_372_036_854_775_808_999_999_999;

/// Largest number of nanoseconds a `Duration` can span.
pub open spec fn max_nanos() -> int {
    i64::MAX as int * 1_000_000_000 + 999_999_999
}

/// Smallest (most negative) number of nanoseconds a `Duration` can span.
pub open spec fn min_nanos() -> int {
    i64::MIN as int * 1_000_000_000 - 999_999_999
}

/// The nanosecond counts a `Duration` can hold.
pub open spec fn in_range(n: int) -> bool {
    min_nanos() <= n <= max_nanos()
}

/// Division rounding toward zero, as Rust's integer `/` does.
pub open spec fn trunc_div(a: int, b: int) -> int
    recommends
        b != 0,
{
    let q = (if a < 0 { -a } else { a }) / (if b < 0 { -b } else { b });
    if (a < 0) == (b < 0) {
        q
    } else {
        -q
    }
}

/// Remainder of the division rounding toward zero, as Rust's integer `%` does.
pub open spec fn trunc_rem(a: int, b: int) -> int
    recommends
        b != 0,
{
    a - trunc_div(a, b) * b
}

/// Clamps a nanosecond count into the range a `Duration` can hold.
pub open spec fn clamp_nanos(n: int) -> int {
    if n > max_nanos() {
        max_nanos()
    } else if n < min_nanos() {
        min_nanos()
    } else {
        n
    }
}

/// A span of time, positive or negative, with nanosecond precision.
#[derive(Clone, Copy, Debug, PartialEq, Eq, Structural, PartialOrd, Ord, Hash)]
pub struct Duration {
    seconds: i64,
    nanoseconds: i32,
}

impl View for Duration {
    type V = int;

    /// The total number of nanoseconds spanned.
    open spec fn view(&self) -> int {
        self.total_nanos()
    }
}

/// The canonical duration spanning `n` nanoseconds.
pub closed spec fn duration_of(n: int) -> Duration {
    Duration { seconds: trunc_div(n, 1_000_000_000) as i64, nanoseconds: trunc_rem(n, 1_000_000_000) as i32 }
}

proof fn lemma_split_nanos(s: int, ns: int)
    requires
        -1_000_000_000 < ns < 1_000_000_000,
        s > 0 ==> ns >= 0,
        s < 0 ==> ns <= 0,
    ensures
        trunc_div(s * 1_000_000_000 + ns, 1_000_000_000) == s,
        trunc_rem(s * 1_000_000_000 + ns, 1_000_000_000) == ns,
{
    let v = s * 1_000_000_000 + ns;
    if v >= 0 {
        assert(s >= 0);
        assert(ns >= 0);
        lemma_fundamental_div_mod_converse(v, 1_000_000_000, s, ns);
    } else {
        assert(s <= 0);
        assert(ns <= 0);
        lemma_fundamental_div_mod_converse(-v, 1_000_000_000, -s, -ns);
    }
}

/// Every nanosecond count that fits splits into seconds and a same-signed remainder that fit.
proof fn lemma_split_fits(n: int)
    requires
        in_range(n),
    ensures
        i64::MIN <= trunc_div(n, 1_000_000_000) <= i64::MAX,
        -1_000_000_000 < trunc_rem(n, 1_000_000_000) < 1_000_000_000,
        trunc_div(n, 1_000_000_000) > 0 ==> trunc_rem(n, 1_000_000_000) >= 0,
        trunc_div(n, 1_000_000_000) < 0 ==> trunc_rem(n, 1_000_000_000) <= 0,
        n >= 0 ==> trunc_rem(n, 1_000_000_000) >= 0,
        n <= 0 ==> trunc_rem(n, 1_000_000_000) <= 0,
        duration_of(n).wf(),
        duration_of(n)@ == n,
{
    let d = 1_000_000_000int;
    if n >= 0 {
        lemma_div_is_ordered(n, max_nanos(), d);
        lemma_fundamental_div_mod_converse(max_nanos(), d, i64::MAX as int, 999_999_999);
        vstd::arithmetic::div_mod::lemma_fundamental_div_mod(n, d);
        vstd::arithmetic::div_mod::lemma_mod_bound(n, d);
    } else {
        lemma_div_is_ordered(-n, -min_nanos(), d);
        lemma_fundamental_div_mod_converse(-min_nanos(), d, -(i64::MIN as int), 999_999_999);
        vstd::arithmetic::div_mod::lemma_fundamental_div_mod(-n, d);
        vstd::arithmetic::div_mod::lemma_mod_bound(-n, d);
    }
}

impl Duration {
    /// The representation invariant: the nanosecond part is below one second in magnitude
    /// and never has the opposite sign of the seconds part.
    pub closed spec fn wf(self) -> bool {
        &&& -1_000_000_000 < self.nanoseconds < 1_000_000_000
        &&& self.seconds > 0 ==> self.nanoseconds >= 0
        &&& self.seconds < 0 ==> self.nanoseconds <= 0
    }

    /// The total number of nanoseconds spanned.
    pub closed spec fn total_nanos(self) -> int {
        self.seconds * 1_000_000_000 + self.nanoseconds
    }

    /// A well-formed duration spans a nanosecond count that fits.
    pub proof fn lemma_range(self)
        requires
            self.wf(),
        ensures
            in_range(self@),
    {
    }

    /// Two well-formed durations are equal exactly when they span the same time, so `==`
    /// on durations compares lengths.
    pub proof fn lemma_canonical(self, other: Duration)
        requires
            self.wf(),
            other.wf(),
        ensures
            (self == other) <==> (self@ == other@),
    {
        lemma_split_nanos(self.seconds as int, self.nanoseconds as int);
        lemma_split_nanos(other.seconds as int, other.nanoseconds as int);
    }

    /// `duration_of(n)` is the one well-formed duration spanning `n` nanoseconds.
    pub proof fn lemma_duration_of(n: int)
        requires
            in_range(n),
        ensures
            duration_of(n).wf(),
            duration_of(n)@ == n,
    {
        lemma_split_fits(n);
    }

    proof fn lemma_is_duration_of(self)
        requires
            self.wf(),
        ensures
            self == duration_of(self@),
    {
        lemma_split_nanos(self.seconds as int, self.nanoseconds as int);
    }

    /// The empty duration.
    pub fn zero() -> (d: Duration)
        ensures
            d.wf(),
            d@ == 0,
    {
        Duration { seconds: 0, nanoseconds: 0 }
    }

    /// The largest duration.
    pub fn max_value() -> (d: Duration)
        ensures
            d.wf(),
            d@ == max_nanos(),
    {
        Duration { seconds: i64::MAX, nanoseconds: 999_999_999 }
    }

    /// The smallest (most negative) duration.
    pub fn min_value() -> (d: Duration)
        ensures
            d.wf(),
            d@ == min_nanos(),
    {
        Duration { seconds: i64::MIN, nanoseconds: -999_999_999 }
    }

    /// A duration spanning `n` nanoseconds, for an `n` that fits.
    pub(crate) fn nanoseconds_i128(n: i128) -> (d: Duration)
        requires
            in_range(n as int),
        ensures
            d.wf(),
            d@ == n,
            d == duration_of(n as int),
    {
        proof {
            lemma_split_fits(n as int);
        }
        let s = n / 1_000_000_000;
        let ns = n % 1_000_000_000;
        Duration { seconds: s as i64, nanoseconds: ns as i32 }
    }

    /// Creates a duration of `nanoseconds` nanoseconds.
    pub fn nanoseconds(nanoseconds: i64) -> (d: Duration)
        ensures
            d.wf(),
            d@ == nanoseconds,
    {
        proof {
            lemma_split_fits(nanoseconds as int);
        }
        Duration {
            seconds: nanoseconds / 1_000_000_000,
            nanoseconds: (nanoseconds % 1_000_000_000) as i32,
        }
    }

    /// Creates a duration of `microseconds` microseconds.
    pub fn microseconds(microseconds: i64) -> (d: Duration)
        ensures
            d.wf(),
            d@ == microseconds * 1_000,
    {
        let s = microseconds / 1_000_000;
        let r = microseconds % 1_000_000;
        assert(microseconds == s * 1_000_000 + r);
        Duration { seconds: s, nanoseconds: (r * 1_000) as i32 }
    }

    /// Creates a duration of `milliseconds` milliseconds.
    pub fn milliseconds(milliseconds: i64) -> (d: Duration)
        ensures
            d.wf(),
            d@ == milliseconds * 1_000_000,
    {
        let s = milliseconds / 1_000;
        let r = milliseconds % 1_000;
        assert(milliseconds == s * 1_000 + r);
        Duration { seconds: s, nanoseconds: (r * 1_000_000) as i32 }
    }

    /// Creates a duration of `seconds` whole seconds.
    pub fn seconds(seconds: i64) -> (d: Duration)
        ensures
            d.wf(),
            d@ == seconds * 1_000_000_000,
    {
        Duration { seconds, nanoseconds: 0 }
    }

    /// Creates a duration of `minutes` whole minutes; the number of seconds must fit in `i64`.
    pub fn minutes(minutes: i64) -> (d: Duration)
        requires
            i64::MIN <= minutes * 60 <= i64::MAX,
        ensures
            d.wf(),
            d@ == minutes * 60 * 1_000_000_000,
    {
        Duration { seconds: minutes * 60, nanoseconds: 0 }
    }

    /// Creates a duration of `hours` whole hours; the number of seconds must fit in `i64`.
    pub fn hours(hours: i64) -> (d: Duration)
        requires
            i64::MIN <= hours * 3_600 <= i64::MAX,
        ensures
            d.wf(),
            d@ == hours * 3_600 * 1_000_000_000,
    {
        Duration { seconds: hours * 3_600, nanoseconds: 0 }
    }

    /// Creates a duration of `days` whole days; the number of seconds must fit in `i64`.
    pub fn days(days: i64) -> (d: Duration)
        requires
            i64::MIN <= days * 86_400 <= i64::MAX,
        ensures
            d.wf(),
            d@ == days * 86_400 * 1_000_000_000,
    {
        Duration { seconds: days * 86_400, nanoseconds: 0 }
    }

    /// Creates a duration of `weeks` whole weeks; the number of seconds must fit in `i64`.
    pub fn weeks(weeks: i64) -> (d: Duration)
        requires
            i64::MIN <= weeks * 604_800 <= i64::MAX,
        ensures
            d.wf(),
            d@ == weeks * 604_800 * 1_000_000_000,
    {
        Duration { seconds: weeks * 604_800, nanoseconds: 0 }
    }

    /// Whether the duration spans no time.
    pub fn is_zero(&self) -> (r: bool)
        requires
            self.wf(),
        ensures
            r == (self@ == 0),
    {
        self.seconds == 0 && self.nanoseconds == 0
    }

    /// Whether the duration is negative.
    pub fn is_negative(&self) -> (r: bool)
        requires
            self.wf(),
        ensures
            r == (self@ < 0),
    {
        self.seconds < 0 || self.nanoseconds < 0
    }

    /// Whether the duration is positive.
    pub fn is_positive(&self) -> (r: bool)
        requires
            self.wf(),
        ensures
            r == (self@ > 0),
    {
        self.seconds > 0 || self.nanoseconds > 0
    }

    /// The absolute value; the seconds part saturates, so the most negative whole second
    /// count maps to the largest one.
    pub fn abs(&self) -> (d: Duration)
        requires
            self.wf(),
        ensures
            d.wf(),
            self@ > i64::MIN * 1_000_000_000 ==> d@ == (if self@ < 0 { -self@ } else { self@ }),
            self@ <= i64::MIN * 1_000_000_000 ==> d@ == i64::MAX * 1_000_000_000 + (i64::MIN
                * 1_000_000_000 - self@),
    {
        let s = if self.seconds == i64::MIN {
            i64::MAX
        } else if self.seconds < 0 {
            -self.seconds
        } else {
            self.seconds
        };
        let ns = if self.nanoseconds < 0 {
            -self.nanoseconds
        } else {
            self.nanoseconds
        };
        Duration { seconds: s, nanoseconds: ns }
    }

    /// The number of whole weeks, rounded toward zero.
    pub fn whole_weeks(&self) -> (r: i64)
        requires
            self.wf(),
        ensures
            r == trunc_div(self@, 604_800 * 1_000_000_000int),
    {
        proof {
            self.lemma_whole_unit(604_800);
        }
        self.seconds / 604_800
    }

    /// The number of whole days, rounded toward zero.
    pub fn whole_days(&self) -> (r: i64)
        requires
            self.wf(),
        ensures
            r == trunc_div(self@, 86_400 * 1_000_000_000int),
    {
        proof {
            self.lemma_whole_unit(86_400);
        }
        self.seconds / 86_400
    }

    /// The number of whole hours, rounded toward zero.
    pub fn whole_hours(&self) -> (r: i64)
        requires
            self.wf(),
        ensures
            r == trunc_div(self@, 3_600 * 1_000_000_000int),
    {
        proof {
            self.lemma_whole_unit(3_600);
        }
        self.seconds / 3_600
    }

    /// The number of whole minutes, rounded toward zero.
    pub fn whole_minutes(&self) -> (r: i64)
        requires
            self.wf(),
        ensures
            r == trunc_div(self@, 60 * 1_000_000_000int),
    {
        proof {
            self.lemma_whole_unit(60);
        }
        self.seconds / 60
    }

    /// The number of whole seconds, rounded toward zero.
    pub fn whole_seconds(&self) -> (r: i64)
        requires
            self.wf(),
        ensures
            r == trunc_div(self@, 1_000_000_000),
    {
        proof {
            lemma_split_nanos(self.seconds as int, self.nanoseconds as int);
        }
        self.seconds
    }

    /// The number of whole milliseconds, rounded toward zero.
    pub fn whole_milliseconds(&self) -> (r: i128)
        requires
            self.wf(),
        ensures
            r == trunc_div(self@, 1_000_000),
    {
        proof {
            self.lemma_whole_sub_unit(1_000_000, 1_000);
        }
        self.seconds as i128 * 1_000 + self.nanoseconds as i128 / 1_000_000
    }

    /// The number of whole microseconds, rounded toward zero.
    pub fn whole_microseconds(&self) -> (r: i128)
        requires
            self.wf(),
        ensures
            r == trunc_div(self@, 1_000),
    {
        proof {
            self.lemma_whole_sub_unit(1_000, 1_000_000);
        }
        self.seconds as i128 * 1_000_000 + self.nanoseconds as i128 / 1_000
    }

    /// The total number of nanoseconds.
    pub fn whole_nanoseconds(&self) -> (r: i128)
        requires
            self.wf(),
        ensures
            r == self@,
    {
        self.seconds as i128 * 1_000_000_000 + self.nanoseconds as i128
    }

    /// The milliseconds past the last whole second, with the sign of the duration.
    pub fn subsec_milliseconds(&self) -> (r: i16)
        requires
            self.wf(),
        ensures
            r == trunc_div(trunc_rem(self@, 1_000_000_000), 1_000_000),
    {
        proof {
            lemma_split_nanos(self.seconds as int, self.nanoseconds as int);
        }
        (self.nanoseconds / 1_000_000) as i16
    }

    /// The microseconds past the last whole second, with the sign of the duration.
    pub fn subsec_microseconds(&self) -> (r: i32)
        requires
            self.wf(),
        ensures
            r == trunc_div(trunc_rem(self@, 1_000_000_000), 1_000),
    {
        proof {
            lemma_split_nanos(self.seconds as int, self.nanoseconds as int);
        }
        self.nanoseconds / 1_000
    }

    /// The nanoseconds past the last whole second, with the sign of the duration.
    pub fn subsec_nanoseconds(&self) -> (r: i32)
        requires
            self.wf(),
        ensures
            r == trunc_rem(self@, 1_000_000_000),
    {
        proof {
            lemma_split_nanos(self.seconds as int, self.nanoseconds as int);
        }
        self.nanoseconds
    }

    /// Adds two durations, or `None` when the sum does not fit.
    pub fn checked_add(self, rhs: Duration) -> (r: Option<Duration>)
        requires
            self.wf(),
            rhs.wf(),
        ensures
            r is Some <==> in_range(self@ + rhs@),
            r matches Some(d) ==> d.wf() && d@ == self@ + rhs@ && d == duration_of(self@ + rhs@),
    {
        let n = self.whole_nanoseconds() + rhs.whole_nanoseconds();
        if MIN_NANOS <= n && n <= MAX_NANOS {
            Some(Duration::nanoseconds_i128(n))
        } else {
            None
        }
    }

    /// Subtracts `rhs`, or `None` when the difference does not fit.
    pub fn checked_sub(self, rhs: Duration) -> (r: Option<Duration>)
        requires
            self.wf(),
            rhs.wf(),
        ensures
            r is Some <==> in_range(self@ - rhs@),
            r matches Some(d) ==> d.wf() && d@ == self@ - rhs@ && d == duration_of(self@ - rhs@),
    {
        let n = self.whole_nanoseconds() - rhs.whole_nanoseconds();
        if MIN_NANOS <= n && n <= MAX_NANOS {
            Some(Duration::nanoseconds_i128(n))
        } else {
            None
        }
    }

    /// Multiplies by `rhs`, or `None` when the product does not fit.
    pub fn checked_mul(self, rhs: i32) -> (r: Option<Duration>)
        requires
            self.wf(),
        ensures
            r is Some <==> in_range(self@ * rhs),
            r matches Some(d) ==> d.wf() && d@ == self@ * rhs && d == duration_of(self@ * rhs),
    {
        let v = self.whole_nanoseconds();
        proof {
            lemma_mul_fits(v as int, rhs as int);
        }
        let n = v * (rhs as i128);
        if MIN_NANOS <= n && n <= MAX_NANOS {
            Some(Duration::nanoseconds_i128(n))
        } else {
            None
        }
    }

    /// Divides by `rhs`, rounding toward zero, or `None` when `rhs` is zero or the quotient
    /// does not fit.
    pub fn checked_div(self, rhs: i32) -> (r: Option<Duration>)
        requires
            self.wf(),
        ensures
            r is Some <==> rhs != 0 && in_range(trunc_div(self@, rhs as int)),
            r matches Some(d) ==> d.wf() && d@ == trunc_div(self@, rhs as int) && d
                == duration_of(trunc_div(self@, rhs as int)),
    {
        if rhs == 0 {
            return None;
        }
        let v = self.whole_nanoseconds();
        proof {
            lemma_div_fits(v as int, rhs as int);
        }
        let b: i128 = if rhs < 0 { -(rhs as i128) } else { rhs as i128 };
        let q = v / b;
        let n = if rhs < 0 { -q } else { q };
        assert(n == trunc_div(v as int, rhs as int));
        if MIN_NANOS <= n && n <= MAX_NANOS {
            Some(Duration::nanoseconds_i128(n))
        } else {
            None
        }
    }

    /// Adds two durations, clamping at the largest or smallest duration.
    pub fn saturating_add(self, rhs: Duration) -> (d: Duration)
        requires
            self.wf(),
            rhs.wf(),
        ensures
            d.wf(),
            d@ == clamp_nanos(self@ + rhs@),
    {
        let n = self.whole_nanoseconds() + rhs.whole_nanoseconds();
        Duration::nanoseconds_i128(clamp_i128(n))
    }

    /// Subtracts `rhs`, clamping at the largest or smallest duration.
    pub fn saturating_sub(self, rhs: Duration) -> (d: Duration)
        requires
            self.wf(),
            rhs.wf(),
        ensures
            d.wf(),
            d@ == clamp_nanos(self@ - rhs@),
    {
        let n = self.whole_nanoseconds() - rhs.whole_nanoseconds();
        Duration::nanoseconds_i128(clamp_i128(n))
    }

    /// Multiplies by `rhs`, clamping at the largest or smallest duration.
    pub fn saturating_mul(self, rhs: i32) -> (d: Duration)
        requires
            self.wf(),
        ensures
            d.wf(),
            d@ == clamp_nanos(self@ * rhs),
    {
        let v = self.whole_nanoseconds();
        proof {
            lemma_mul_fits(v as int, rhs as int);
        }
        let n = v * (rhs as i128);
        Duration::nanoseconds_i128(clamp_i128(n))
    }

    /// Rounding the seconds toward zero to a multiple of `unit` seconds is the same as
    /// rounding the whole duration toward zero to that many nanoseconds.
    proof fn lemma_whole_unit(self, unit: int)
        requires
            self.wf(),
            unit > 0,
        ensures
            trunc_div(self.seconds as int, unit) == trunc_div(self@, unit * 1_000_000_000),
    {
        lemma_split_nanos(self.seconds as int, self.nanoseconds as int);
        let v = self@;
        if v >= 0 {
            lemma_div_denominator(v, 1_000_000_000, unit);
            assert(1_000_000_000 * unit == unit * 1_000_000_000) by (nonlinear_arith);
        } else {
            lemma_div_denominator(-v, 1_000_000_000, unit);
            assert(1_000_000_000 * unit == unit * 1_000_000_000) by (nonlinear_arith);
        }
    }

    /// For a unit of `unit` nanoseconds that divides a second `per_second` times, the whole
    /// units are the whole seconds times `per_second` plus the whole units of the remainder.
    proof fn lemma_whole_sub_unit(self, unit: int, per_second: int)
        requires
            self.wf(),
            unit > 0,
            unit * per_second == 1_000_000_000,
        ensures
            self.seconds * per_second + trunc_div(self.nanoseconds as int, unit) == trunc_div(
                self@,
                unit,
            ),
    {
        let v = self@;
        let s = self.seconds as int;
        let ns = self.nanoseconds as int;
        assert(s * 1_000_000_000 == (s * per_second) * unit) by (nonlinear_arith)
            requires
                unit * per_second == 1_000_000_000,
        ;
        if v >= 0 {
            assert(s >= 0 && ns >= 0);
            lemma_hoist_over_denominator(ns, s * per_second, unit as nat);
            assert(v == ns + (s * per_second) * unit);
            assert(trunc_div(v, unit) == v / unit);
            assert(trunc_div(ns, unit) == ns / unit);
            assert(ns / unit + s * per_second == (ns + (s * per_second) * unit) / unit);
            assert(s * per_second + trunc_div(ns, unit) == trunc_div(v, unit));
        } else {
            assert(s <= 0 && ns <= 0);
            lemma_hoist_over_denominator(-ns, -s * per_second, unit as nat);
            assert((-s * per_second) * unit == -((s * per_second) * unit)) by (nonlinear_arith);
            assert(-v == -ns + (-s * per_second) * unit);
            assert(trunc_div(v, unit) == -((-v) / unit));
            assert(trunc_div(ns, unit) == -((-ns) / unit));
            assert((-ns) / unit + (-s * per_second) == (-ns + (-s * per_second) * unit) / unit);
            assert(-s * per_second == -(s * per_second)) by (nonlinear_arith);
            assert(s * per_second + trunc_div(ns, unit) == trunc_div(v, unit));
        }
    }

    /// Creates a duration of `seconds` seconds plus `nanoseconds` nanoseconds, where the
    /// nanoseconds may exceed a second and either part may be negative.  The whole seconds
    /// carried out of `nanoseconds` must still fit in `i64` once added to `seconds`.
    pub fn new(seconds: i64, nanoseconds: i32) -> (d: Duration)
        requires
            i64::MIN <= seconds + trunc_div(nanoseconds as int, 1_000_000_000) <= i64::MAX,
        ensures
            d.wf(),
            d@ == seconds * 1_000_000_000 + nanoseconds,
    {
        let carry = (nanoseconds / 1_000_000_000) as i64;
        let mut s = seconds + carry;
        let mut ns = nanoseconds % 1_000_000_000;
        assert(nanoseconds == carry * 1_000_000_000 + ns);
        if s > 0 && ns < 0 {
            s = s - 1;
            ns = ns + 1_000_000_000;
        } else if s < 0 && ns > 0 {
            s = s + 1;
            ns = ns - 1_000_000_000;
        }
        Duration { seconds: s, nanoseconds: ns }
    }
}

/// Clamps a nanosecond count into the range a `Duration` can hold.
fn clamp_i128(n: i128) -> (r: i128)
    ensures
        r == clamp_nanos(n as int),
{
    if n > MAX_NANOS {
        MAX_NANOS
    } else if n < MIN_NANOS {
        MIN_NANOS
    } else {
        n
    }
}

proof fn lemma_mul_fits(v: int, r: int)
    requires
        in_range(v),
        i32::MIN <= r <= i32::MAX,
    ensures
        i128::MIN <= v * r <= i128::MAX,
{
    assert(-10_000_000_000_000_000_000_000_000_000 <= v <= 10_000_000_000_000_000_000_000_000_000);
    assert(-10_000_000_000_000_000_000_000_000_000 * 3_000_000_000 <= v * r
        <= 10_000_000_000_000_000_000_000_000_000 * 3_000_000_000) by (nonlinear_arith)
        requires
            -10_000_000_000_000_000_000_000_000_000 <= v <= 10_000_000_000_000_000_000_000_000_000,
            -3_000_000_000 <= r <= 3_000_000_000,
    ;
}

proof fn lemma_div_fits(v: int, r: int)
    requires
        in_range(v),
        r != 0,
        i32::MIN <= r <= i32::MAX,
    ensures
        -(max_nanos() + 1_000_000_000) <= trunc_div(v, r) <= max_nanos() + 1_000_000_000,
{
    let a = if v < 0 { -v } else { v };
    let b = if r < 0 { -r } else { r };
    lemma_div_is_ordered(a, max_nanos() + 1_000_000_000, b);
    vstd::arithmetic::div_mod::lemma_div_is_ordered_by_denominator(max_nanos() + 1_000_000_000, 1, b);
}

impl vstd::std_specs::ops::AddSpecImpl for Duration {
    open spec fn obeys_add_spec() -> bool {
        true
    }

    open spec fn add_req(self, rhs: Duration) -> bool {
        self.wf() && rhs.wf() && in_range(self@ + rhs@)
    }

    open spec fn add_spec(self, rhs: Duration) -> Duration {
        duration_of(self@ + rhs@)
    }
}

impl core::ops::Add for Duration {
    type Output = Duration;

    /// Adds two durations; the sum must fit.
    fn add(self, rhs: Duration) -> (d: Duration) {
        self.checked_add(rhs).unwrap()
    }
}

impl vstd::std_specs::ops::SubSpecImpl for Duration {
    open spec fn obeys_sub_spec() -> bool {
        true
    }

    open spec fn sub_req(self, rhs: Duration) -> bool {
        self.wf() && rhs.wf() && in_range(self@ - rhs@)
    }

    open spec fn sub_spec(self, rhs: Duration) -> Duration {
        duration_of(self@ - rhs@)
    }
}

impl core::ops::Sub for Duration {
    type Output = Duration;

    /// Subtracts `rhs`; the difference must fit.
    fn sub(self, rhs: Duration) -> (d: Duration) {
        self.checked_sub(rhs).unwrap()
    }
}

impl vstd::std_specs::ops::NegSpecImpl for Duration {
    open spec fn obeys_neg_spec() -> bool {
        true
    }

    open spec fn neg_req(self) -> bool {
        self.wf() && in_range(-self@)
    }

    open spec fn neg_spec(self) -> Duration {
        duration_of(-self@)
    }
}

impl core::ops::Neg for Duration {
    type Output = Duration;

    /// The duration of opposite sign; it must fit.
    fn neg(self) -> (d: Duration) {
        proof {
            lemma_split_fits(-self@);
            lemma_split_nanos(self.seconds as int, self.nanoseconds as int);
        }
        Duration { seconds: -self.seconds, nanoseconds: -self.nanoseconds }
    }
}

impl vstd::std_specs::ops::MulSpecImpl<i32> for Duration {
    open spec fn obeys_mul_spec() -> bool {
        true
    }

    open spec fn mul_req(self, rhs: i32) -> bool {
        self.wf() && in_range(self@ * rhs)
    }

    open spec fn mul_spec(self, rhs: i32) -> Duration {
        duration_of(self@ * rhs)
    }
}

impl core::ops::Mul<i32> for Duration {
    type Output = Duration;

    /// Multiplies by `rhs`; the product must fit.
    fn mul(self, rhs: i32) -> (d: Duration) {
        self.checked_mul(rhs).unwrap()
    }
}

impl vstd::std_specs::ops::MulSpecImpl<Duration> for i32 {
    open spec fn obeys_mul_spec() -> bool {
        true
    }

    open spec fn mul_req(self, rhs: Duration) -> bool {
        rhs.wf() && in_range(rhs@ * self)
    }

    open spec fn mul_spec(self, rhs: Duration) -> Duration {
        duration_of(rhs@ * self)
    }
}

impl core::ops::Mul<Duration> for i32 {
    type Output = Duration;

    /// Multiplies `rhs` by this factor; the product must fit.
    fn mul(self, rhs: Duration) -> (d: Duration) {
        rhs.checked_mul(self).unwrap()
    }
}

impl vstd::std_specs::ops::DivSpecImpl<i32> for Duration {
    open spec fn obeys_div_spec() -> bool {
        true
    }

    open spec fn div_req(self, rhs: i32) -> bool {
        self.wf() && rhs != 0 && in_range(trunc_div(self@, rhs as int))
    }

    open spec fn div_spec(self, rhs: i32) -> Duration {
        duration_of(trunc_div(self@, rhs as int))
    }
}

impl core::ops::Div<i32> for Duration {
    type Output = Duration;

    /// Divides by `rhs`, rounding toward zero; `rhs` must be nonzero and the quotient must fit.
    fn div(self, rhs: i32) -> (d: Duration) {
        self.checked_div(rhs).unwrap()
    }
}

impl core::ops::AddAssign for Duration {
    /// Adds `rhs` in place; the sum must fit.
    fn add_assign(&mut self, rhs: Duration)
        requires
            old(self).add_req(rhs),
        ensures
            *final(self) == old(self).add_spec(rhs),
    {
        *self = self.checked_add(rhs).unwrap();
    }
}

impl core::ops::SubAssign for Duration {
    /// Subtracts `rhs` in place; the difference must fit.
    fn sub_assign(&mut self, rhs: Duration)
        requires
            old(self).sub_req(rhs),
        ensures
            *final(self) == old(self).sub_spec(rhs),
    {
        *self = self.checked_sub(rhs).unwrap();
    }
}

impl core::ops::MulAssign<i32> for Duration {
    /// Multiplies in place by `rhs`; the product must fit.
    fn mul_assign(&mut self, rhs: i32)
        requires
            old(self).mul_req(rhs),
        ensures
            *final(self) == old(self).mul_spec(rhs),
    {
        *self = self.checked_mul(rhs).unwrap();
    }
}

impl core::ops::DivAssign<i32> for Duration {
    /// Divides in place by `rhs`, rounding toward zero; `rhs` must be nonzero and the quotient
    /// must fit.
    fn div_assign(&mut self, rhs: i32)
        requires
            old(self).div_req(rhs),
        ensures
            *final(self) == old(self).div_spec(rhs),
    {
        *self = self.checked_div(rhs).unwrap();
    }
}

/// Builds durations from integer counts, so that `5.seconds()` reads naturally.
pub trait NumericalDuration: Sized {
    /// The count this value stands for.
    spec fn count(self) -> int;

    /// A duration of this many nanoseconds.
    fn nanoseconds(self) -> (d: Duration)
        ensures
            d.wf(),
            d@ == self.count(),
    ;

    /// A duration of this many microseconds.
    fn microseconds(self) -> (d: Duration)
        ensures
            d.wf(),
            d@ == self.count() * 1_000,
    ;

    /// A duration of this many milliseconds.
    fn milliseconds(self) -> (d: Duration)
        ensures
            d.wf(),
            d@ == self.count() * 1_000_000,
    ;

    /// A duration of this many seconds.
    fn seconds(self) -> (d: Duration)
        ensures
            d.wf(),
            d@ == self.count() * 1_000_000_000,
    ;

    /// A duration of this many minutes; the number of seconds must fit in `i64`.
    fn minutes(self) -> (d: Duration)
        requires
            i64::MIN <= self.count() * 60 <= i64::MAX,
        ensures
            d.wf(),
            d@ == self.count() * 60 * 1_000_000_000,
    ;

    /// A duration of this many hours; the number of seconds must fit in `i64`.
    fn hours(self) -> (d: Duration)
        requires
            i64::MIN <= self.count() * 3_600 <= i64::MAX,
        ensures
            d.wf(),
            d@ == self.count() * 3_600 * 1_000_000_000,
    ;

    /// A duration of this many days; the number of seconds must fit in `i64`.
    fn days(self) -> (d: Duration)
        requires
            i64::MIN <= self.count() * 86_400 <= i64::MAX,
        ensures
            d.wf(),
            d@ == self.count() * 86_400 * 1_000_000_000,
    ;

    /// A duration of this many weeks; the number of seconds must fit in `i64`.
    fn weeks(self) -> (d: Duration)
        requires
            i64::MIN <= self.count() * 604_800 <= i64::MAX,
        ensures
            d.wf(),
            d@ == self.count() * 604_800 * 1_000_000_000,
    ;
}

impl NumericalDuration for i64 {
    open spec fn count(self) -> int {
        self as int
    }

    fn nanoseconds(self) -> (d: Duration) {
        Duration::nanoseconds(self)
    }

    fn microseconds(self) -> (d: Duration) {
        Duration::microseconds(self)
    }

    fn milliseconds(self) -> (d: Duration) {
        Duration::milliseconds(self)
    }

    fn seconds(self) -> (d: Duration) {
        Duration::seconds(self)
    }

    fn minutes(self) -> (d: Duration) {
        Duration::minutes(self)
    }

    fn hours(self) -> (d: Duration) {
        Duration::hours(self)
    }

    fn days(self) -> (d: Duration) {
        Duration::days(self)
    }

    fn weeks(self) -> (d: Duration) {
        Duration::weeks(self)
    }
}

impl Default for Duration {
    /// The empty duration.
    fn default() -> (d: Duration)
        ensures
            d.wf(),
            d@ == 0,
    {
        Duration::zero()
    }
}

/// Adding a duration and then subtracting it again gives the first one back, when the sum
/// fits.
pub proof fn lemma_add_then_sub(a: Duration, b: Duration)
    requires
        a.add_req(b),
    ensures
        a.add_spec(b).sub_req(b),
        a.add_spec(b).sub_spec(b) == a,
{
    Duration::lemma_duration_of(a@ + b@);
    a.lemma_is_duration_of();
}

/// Addition of durations commutes.
pub proof fn lemma_add_commutes(a: Duration, b: Duration)
    requires
        a.add_req(b),
    ensures
        b.add_req(a),
        a.add_spec(b) == b.add_spec(a),
{
    assert(a@ + b@ == b@ + a@);
}

/// Negating a duration twice gives it back.
pub proof fn lemma_neg_neg(a: Duration)
    requires
        a.neg_req(),
    ensures
        a.neg_spec().neg_req(),
        a.neg_spec().neg_spec() == a,
{
    Duration::lemma_duration_of(-a@);
    a.lemma_is_duration_of();
}

/// Subtracting a duration is adding its negation.
pub proof fn lemma_sub_is_add_neg(a: Duration, b: Duration)
    requires
        a.sub_req(b),
        b.neg_req(),
    ensures
        a.add_req(b.neg_spec()),
        a.sub_spec(b) == a.add_spec(b.neg_spec()),
{
    Duration::lemma_duration_of(-b@);
}

/// Multiplying a duration by a nonzero factor and dividing the product by the same factor
/// gives the duration back, when the product fits.
pub proof fn lemma_mul_then_div(a: Duration, k: i32)
    requires
        a.mul_req(k),
        k != 0,
    ensures
        a.mul_spec(k).div_req(k),
        a.mul_spec(k).div_spec(k) == a,
{
    Duration::lemma_duration_of(a@ * k);
    let v = a@;
    let kk = k as int;
    let av = if v < 0 { -v } else { v };
    let ak = if kk < 0 { -kk } else { kk };
    assert((if v * kk < 0 { -(v * kk) } else { v * kk }) == av * ak) by (nonlinear_arith)
        requires
            av == (if v < 0 { -v } else { v }),
            ak == (if kk < 0 { -kk } else { kk }),
    ;
    vstd::arithmetic::div_mod::lemma_div_by_multiple(av, ak);
    assert(trunc_div(v * kk, kk) == v) by (nonlinear_arith)
        requires
            (if v * kk < 0 { -(v * kk) } else { v * kk }) / ak == av,
            av == (if v < 0 { -v } else { v }),
            ak == (if kk < 0 { -kk } else { kk }),
            kk != 0,
    {
    }
    a.lemma_is_duration_of();
}

} // verus!

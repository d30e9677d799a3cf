//! Timestamps, time bases and their exact conversion to microseconds.
//!
//! Wall-clock instants are whole microseconds in an `i64`. A presentation
//! timestamp counts units of its stream's time base; its media time is the
//! same instant in microseconds, rounded down.

use vstd::arithmetic::div_mod::lemma_div_is_ordered;
use vstd::arithmetic::div_mod::lemma_fundamental_div_mod;
use vstd::arithmetic::div_mod::lemma_fundamental_div_mod_converse;
use vstd::prelude::*;

verus! {

/// The timestamp that stands for "no timestamp yet".
pub const NO_PTS: i64 = i64::MIN;

/// Microseconds in one second.
pub const MICROS_PER_SECOND: i64 = 1_000_000;

/// The largest magnitude a media time can have: the largest timestamp, in the
/// coarsest time base, in microseconds.
pub const MEDIA_TIME_LIMIT: i128 = 19_807_040_628_566_084_398_385_987_584_000_000;

/// A ratio of two integers, as stream descriptions give frame rates and time
/// bases. Nothing is required of it.
#[derive(Clone, Copy, Debug, PartialEq, Eq, Structural)]
pub struct Rational {
    pub num: i32,
    pub den: i32,
}

/// The media time, in microseconds rounded down, of timestamp `pts` in a time
/// base of `num / den` seconds per unit.
pub open spec fn pts_micros(pts: int, num: int, den: int) -> int {
    (pts * num * 1_000_000) / den
}

/// A media time in microseconds. Its magnitude never exceeds
/// `MEDIA_TIME_LIMIT`, so differences of media times and wall-clock
/// instants cannot overflow.
#[derive(Clone, Copy, Debug)]
pub struct MediaTime {
    micros: i128,
}

impl View for MediaTime {
    type V = int;

    closed spec fn view(&self) -> int {
        self.micros as int
    }
}

impl MediaTime {
    #[verifier::type_invariant]
    spec fn within_limit(&self) -> bool {
        -MEDIA_TIME_LIMIT <= self.micros <= MEDIA_TIME_LIMIT
    }

    /// Media time zero.
    pub fn zero() -> (time: MediaTime)
        ensures
            time@ == 0,
    {
        MediaTime { micros: 0 }
    }

    /// The media time of `micros` microseconds.
    pub fn from_micros(micros: i64) -> (time: MediaTime)
        ensures
            time@ == micros,
    {
        MediaTime { micros: micros as i128 }
    }

    /// The time in microseconds.
    pub fn micros(&self) -> (micros: i128)
        ensures
            micros == self@,
            -MEDIA_TIME_LIMIT <= micros <= MEDIA_TIME_LIMIT,
    {
        proof {
            use_type_invariant(self);
        }
        self.micros
    }
}

/// The length of one timestamp unit in seconds: a ratio with a positive
/// denominator.
#[derive(Clone, Copy, Debug)]
pub struct TimeBase {
    num: i64,
    den: i64,
}

impl TimeBase {
    #[verifier::type_invariant]
    spec fn in_range(&self) -> bool {
        &&& -0x8000_0000 <= self.num <= 0x8000_0000
        &&& 0 < self.den <= 0x8000_0000
    }

    /// The numerator, with the sign of the ratio.
    pub closed spec fn spec_num(&self) -> int {
        self.num as int
    }

    /// The denominator; positive in every time base that `new` returns.
    pub closed spec fn spec_den(&self) -> int {
        self.den as int
    }

    /// The media time of `pts` in this time base.
    pub open spec fn spec_micros(&self, pts: i64) -> int {
        pts_micros(pts as int, self.spec_num(), self.spec_den())
    }

    /// One second per unit.
    pub fn seconds() -> (base: TimeBase)
        ensures
            base.spec_num() == 1,
            base.spec_den() == 1,
    {
        TimeBase { num: 1, den: 1 }
    }

    /// The time base `num / den`, or `None` when `den` is zero. The sign is
    /// carried by the numerator.
    pub fn new(num: i32, den: i32) -> (base: Option<TimeBase>)
        ensures
            base is Some <==> den != 0,
            base matches Some(b) ==> {
                &&& b.spec_den() > 0
                &&& den > 0 ==> b.spec_num() == num && b.spec_den() == den
                &&& den < 0 ==> b.spec_num() == -num && b.spec_den() == -den
            },
    {
        if den == 0 {
            None
        } else if den > 0 {
            Some(TimeBase { num: num as i64, den: den as i64 })
        } else {
            Some(TimeBase { num: -(num as i64), den: -(den as i64) })
        }
    }

    /// The numerator, with the sign of the ratio.
    pub fn num(&self) -> (num: i64)
        ensures
            num == self.spec_num(),
    {
        self.num
    }

    /// The denominator.
    pub fn den(&self) -> (den: i64)
        ensures
            den == self.spec_den(),
            den > 0,
    {
        proof {
            use_type_invariant(self);
        }
        self.den
    }

    /// The media time of `pts`: `pts * num / den` seconds, in microseconds
    /// rounded down.
    pub fn to_micros(&self, pts: i64) -> (time: MediaTime)
        ensures
            time@ == self.spec_micros(pts),
    {
        proof {
            use_type_invariant(self);
        }
        let ticks: i128 = pts as i128;
        let num: i128 = self.num as i128;
        let den: i128 = self.den as i128;
        assert(-0x8000_0000_0000_0000 * 0x8000_0000 <= ticks * num <= 0x8000_0000_0000_0000
            * 0x8000_0000) by (nonlinear_arith)
            requires
                -0x8000_0000_0000_0000 <= ticks <= 0x8000_0000_0000_0000,
                -0x8000_0000 <= num <= 0x8000_0000,
        ;
        let scaled: i128 = ticks * num * 1_000_000;
        let micros: i128 = floor_div(scaled, den);
        proof {
            lemma_quotient_within(scaled as int, den as int, MEDIA_TIME_LIMIT as int);
        }
        MediaTime { micros }
    }
}

/// A quotient by a positive divisor is no larger in magnitude than what it
/// divides.
proof fn lemma_quotient_within(a: int, b: int, limit: int)
    requires
        b > 0,
        -limit <= a <= limit,
    ensures
        -limit <= a / b <= limit,
{
    lemma_fundamental_div_mod(a, b);
    let q = a / b;
    let r = a % b;
    assert(-limit <= q <= limit) by (nonlinear_arith)
        requires
            a == b * q + r,
            0 <= r < b,
            b > 0,
            -limit <= a <= limit,
    ;
}

/// `a / b` rounded down, for a positive `b`.
fn floor_div(a: i128, b: i128) -> (q: i128)
    requires
        b > 0,
        a > i128::MIN,
    ensures
        q == a / b,
{
    if a >= 0 {
        a / b
    } else {
        let m: i128 = -a;
        let below: i128 = (m - 1) / b;
        proof {
            let r = (m - 1) % (b as int);
            lemma_fundamental_div_mod(m - 1, b as int);
            assert(a == (-below - 1) * b + (b - r - 1)) by (nonlinear_arith)
                requires
                    m - 1 == b * below + r,
                    a == -m,
            ;
            lemma_fundamental_div_mod_converse(a as int, b as int, -below - 1, b - r - 1);
        }
        -below - 1
    }
}

/// A later timestamp never has an earlier media time, in a time base that
/// runs forward.
pub proof fn lemma_micros_monotonic(earlier: int, later: int, num: int, den: int)
    requires
        earlier <= later,
        num >= 0,
        den > 0,
    ensures
        pts_micros(earlier, num, den) <= pts_micros(later, num, den),
{
    assert(earlier * num * 1_000_000 <= later * num * 1_000_000) by (nonlinear_arith)
        requires
            earlier <= later,
            num >= 0,
    ;
    lemma_div_is_ordered(earlier * num * 1_000_000, later * num * 1_000_000, den);
}

} // verus!

//! The packed duration, its construction with rounding and carry, and the public
//! entry points.

use vstd::prelude::*;
use vstd::arithmetic::mul::lemma_mul_inequality;
use vstd::arithmetic::div_mod::{lemma_mod_mod, lemma_mod_multiples_basic, lemma_small_mod};
use crate::field::{
    check_fsp, check_hour, check_minute, check_second, fsp_spec, lemma_pow10_add,
    lemma_pow10_positive, lemma_pow10_values, pow10,
    ten_pow, ParseError, MAX_FSP, NANOS_PER_SEC, NANO_WIDTH,
};
use crate::layout::{lemma_unpack_pack, pack, unpack, Time};
use crate::scan::{scan, scan_spec, Scan, ScanState};

verus! {

/// A TIME value packed into one word; see the layout module for the bits.
#[derive(Debug, Clone, Copy, PartialEq, Eq, Structural)]
pub struct Duration {
    bits: u64,
}

impl View for Duration {
    type V = Time;

    closed spec fn view(&self) -> Time {
        unpack(self.bits)
    }
}

/// The fields of a duration before they are checked, rounded and packed.
#[derive(Debug, Clone, Copy)]
pub struct DurationBuilder {
    pub neg: bool,
    pub hour: u64,
    pub minute: u64,
    pub second: u64,
    pub nano: u64,
    pub fsp: u8,
    /// Round `nano` half-up to `fsp` digits before the carry.
    pub round_with_fsp: bool,
}

/// The range checks on the fields, in the order they are made.
pub open spec fn field_check(hour: int, minute: int, second: int, fsp: int) -> Result<
    (),
    ParseError,
> {
    if hour > 838 || minute > 59 || second > 59 {
        Err(ParseError::OutOfRange)
    } else if fsp < 0 || fsp > 6 {
        Err(ParseError::InvalidFsp)
    } else {
        Ok(())
    }
}

/// `nano` rounded half-up on the digit after the first `fsp` of its nine.
pub open spec fn round_nano(nano: int, fsp: int) -> int {
    let unit = pow10((8 - fsp) as nat) as int;
    (nano / unit + 5) / 10 * (unit * 10)
}

/// Folds whole seconds of `nano` into second, minute and hour; fails where the
/// hour ends above its maximum.
pub open spec fn carry_spec(
    neg: bool,
    hour: int,
    minute: int,
    second: int,
    nano: int,
    fsp: int,
) -> Result<Time, ParseError> {
    let s = second + nano / 1_000_000_000;
    let m = minute + s / 60;
    let h = hour + m / 60;
    if h > 838 {
        Err(ParseError::OutOfRange)
    } else {
        Ok(
            Time {
                neg,
                hour: h as u64,
                minute: (m % 60) as u64,
                second: (s % 60) as u64,
                nano: (nano % 1_000_000_000) as u64,
                fsp: fsp as u8,
            },
        )
    }
}

/// Checks the fields, rounds the fraction where asked, and carries.
pub open spec fn build_spec(
    neg: bool,
    hour: int,
    minute: int,
    second: int,
    nano: int,
    fsp: int,
    round: bool,
) -> Result<Time, ParseError> {
    match field_check(hour, minute, second, fsp) {
        Err(e) => Err(e),
        Ok(_) => carry_spec(
            neg,
            hour,
            minute,
            second,
            if round {
                round_nano(nano, fsp)
            } else {
                nano
            },
            fsp,
        ),
    }
}

/// What a finished scan stands for: a dangling colon or a lone sign is malformed;
/// a leading block that took no other role is split as `HHMMSS`; days add 24 hours
/// each; the kept fraction digits are scaled to nanoseconds.
pub open spec fn finish_spec(st: Scan, fsp: u8) -> Result<Time, ParseError> {
    if st.state is MinuteColon || st.state is SecondColon || (st.state is Start && st.neg) {
        Err(ParseError::InvalidFormat)
    } else {
        let hour = if st.block != 0 {
            st.block as int / 10000
        } else {
            st.hour as int
        };
        let minute = if st.block != 0 {
            st.block as int / 100 % 100
        } else {
            st.minute as int
        };
        let second = if st.block != 0 {
            st.block as int % 100
        } else {
            st.second as int
        };
        build_spec(
            st.neg,
            hour + st.day * 24,
            minute,
            second,
            st.fract * pow10((9 - st.eaten) as nat),
            fsp as int,
            false,
        )
    }
}

/// The duration that literal `s` stands for at requested precision `fsp`.
pub open spec fn parse_spec(s: Seq<u8>, fsp: int) -> Result<Time, ParseError> {
    match fsp_spec(fsp) {
        Err(e) => Err(e),
        Ok(f) => match scan_spec(s, f) {
            Err(e) => Err(e),
            Ok(st) => finish_spec(st, f),
        },
    }
}

/// `t` at precision `fsp`: a wider precision only changes the tag, a narrower one
/// rounds and carries.
pub open spec fn round_spec(t: Time, fsp: int) -> Result<Time, ParseError> {
    match fsp_spec(fsp) {
        Err(e) => Err(e),
        Ok(f) => if f >= t.fsp {
            Ok(Time { fsp: f, ..t })
        } else {
            carry_spec(
                t.neg,
                t.hour as int,
                t.minute as int,
                t.second as int,
                round_nano(t.nano as int, f as int),
                f as int,
            )
        },
    }
}

/// The duration of `secs` seconds and `nanos` nanoseconds at precision `fsp`.
pub open spec fn new_spec(secs: u64, nanos: u32, neg: bool, fsp: int) -> Result<Time, ParseError> {
    match fsp_spec(fsp) {
        Err(e) => Err(e),
        Ok(f) => if nanos >= 1_000_000_000 {
            Err(ParseError::OutOfRange)
        } else {
            build_spec(
                neg,
                secs as int / 3600,
                secs as int % 3600 / 60,
                secs as int % 60,
                nanos as int,
                f as int,
                true,
            )
        },
    }
}

/// `r` is the outcome `m` describes, and a duration in it is well formed.
pub open spec fn agrees(r: Result<Duration, ParseError>, m: Result<Time, ParseError>) -> bool {
    match r {
        Ok(d) => m == Ok::<Time, ParseError>(d@) && d.wf(),
        Err(e) => m == Err::<Time, ParseError>(e),
    }
}

impl DurationBuilder {
    pub open spec fn check_spec(self) -> Result<DurationBuilder, ParseError> {
        match field_check(self.hour as int, self.minute as int, self.second as int, self.fsp as int) {
            Err(e) => Err(e),
            Ok(_) => Ok(self),
        }
    }

    pub fn check(self) -> (r: Result<Self, ParseError>)
        ensures
            r == self.check_spec(),
    {
        if let Err(e) = check_hour(self.hour) {
            return Err(e);
        }
        if let Err(e) = check_minute(self.minute) {
            return Err(e);
        }
        if let Err(e) = check_second(self.second) {
            return Err(e);
        }
        if self.fsp > MAX_FSP as u8 {
            return Err(ParseError::InvalidFsp);
        }
        Ok(self)
    }
}

impl Duration {
    /// Every field within its domain.
    pub open spec fn wf(self) -> bool {
        self@.valid()
    }

    fn encode(t: Time) -> (d: Duration)
        requires
            t.fits(),
        ensures
            d@ == t,
    {
        proof {
            lemma_unpack_pack(t);
        }
        let n: u64 = if t.neg {
            1
        } else {
            0
        };
        Duration {
            bits: (n << 63u64) | (t.hour << 53u64) | (t.minute << 47u64) | (t.second << 41u64) | (
            t.nano << 9u64) | ((t.fsp as u64) << 1u64),
        }
    }

    pub fn neg(&self) -> (r: bool)
        ensures
            r == self@.neg,
    {
        (self.bits >> 63u64) & 1u64 == 1u64
    }

    pub fn hour(&self) -> (r: u64)
        ensures
            r == self@.hour,
    {
        (self.bits >> 53u64) & 0x3ffu64
    }

    pub fn minute(&self) -> (r: u64)
        ensures
            r == self@.minute,
    {
        (self.bits >> 47u64) & 0x3fu64
    }

    pub fn second(&self) -> (r: u64)
        ensures
            r == self@.second,
    {
        (self.bits >> 41u64) & 0x3fu64
    }

    pub fn nano(&self) -> (r: u64)
        ensures
            r == self@.nano,
    {
        (self.bits >> 9u64) & 0xffff_ffffu64
    }

    pub fn fsp(&self) -> (r: u8)
        ensures
            r == self@.fsp,
    {
        ((self.bits >> 1u64) & 0xffu64) as u8
    }

    /// The zero duration, positive, at precision 0.
    pub fn zero() -> (r: Duration)
        ensures
            r@ == (Time { neg: false, hour: 0, minute: 0, second: 0, nano: 0, fsp: 0 }),
            r.wf(),
    {
        proof {
            lemma_pow10_values();
            lemma_small_mod(0, pow10(9));
        }
        Duration::encode(Time { neg: false, hour: 0, minute: 0, second: 0, nano: 0, fsp: 0 })
    }

    /// Checks the builder's fields, rounds where it asks, carries and packs.
    fn build(builder: DurationBuilder) -> (r: Result<Duration, ParseError>)
        requires
            builder.nano <= NANOS_PER_SEC,
            builder.fsp <= 6 && !builder.round_with_fsp ==> builder.nano as int % pow10(
                (9 - builder.fsp) as nat,
            ) as int == 0,
        ensures
            agrees(
                r,
                build_spec(
                    builder.neg,
                    builder.hour as int,
                    builder.minute as int,
                    builder.second as int,
                    builder.nano as int,
                    builder.fsp as int,
                    builder.round_with_fsp,
                ),
            ),
    {
        let b = match builder.check() {
            Ok(b) => b,
            Err(e) => return Err(e),
        };
        let mut hour = b.hour;
        let mut minute = b.minute;
        let mut second = b.second;
        let mut nano = b.nano;
        if b.round_with_fsp {
            let unit = ten_pow(NANO_WIDTH - b.fsp as u32 - 1);
            proof {
                lemma_pow10_values();
                lemma_rounding_unit_bounds(b.fsp);
            }
            let q = nano / unit;
            let p = (q + 5) / 10;
            proof {
                assert(q * unit <= nano) by (nonlinear_arith)
                    requires
                        q == nano / unit,
                        unit > 0,
                ;
                assert(p * (unit * 10) <= 2_000_000_000) by (nonlinear_arith)
                    requires
                        p == (q + 5) / 10,
                        q * unit <= nano,
                        nano <= 1_000_000_000,
                        unit <= 100_000_000,
                        unit > 0,
                ;
            }
            nano = p * (unit * 10);
            proof {
                assert(pow10((9 - b.fsp) as nat) == 10 * pow10((8 - b.fsp) as nat));
                lemma_mod_multiples_basic(p as int, (unit * 10) as int);
            }
        }
        proof {
            lemma_keeps_fsp_digits(nano as int, b.fsp as nat);
        }
        if nano >= NANOS_PER_SEC {
            second = second + nano / NANOS_PER_SEC;
            minute = minute + second / 60;
            hour = hour + minute / 60;
            hour = match check_hour(hour) {
                Ok(h) => h,
                Err(e) => return Err(e),
            };
            nano = nano % NANOS_PER_SEC;
            second = second % 60;
            minute = minute % 60;
        }
        Ok(
            Duration::encode(
                Time { neg: b.neg, hour, minute, second, nano, fsp: b.fsp },
            ),
        )
    }

    /// Parses a TIME literal such as `-1 1:2:3.123456` at precision `fsp`.
    pub fn parse(s: &[u8], fsp: i8) -> (r: Result<Duration, ParseError>)
        ensures
            agrees(r, parse_spec(s@, fsp as int)),
    {
        let fsp = match check_fsp(fsp) {
            Ok(f) => f,
            Err(e) => return Err(e),
        };
        let st = match scan(s, fsp) {
            Ok(st) => st,
            Err(e) => return Err(e),
        };
        if st.state == ScanState::MinuteColon || st.state == ScanState::SecondColon || (st.state
            == ScanState::Start && st.neg) {
            return Err(ParseError::InvalidFormat);
        }
        let mut hour = st.hour;
        let mut minute = st.minute;
        let mut second = st.second;
        if st.block != 0 {
            second = st.block % 100;
            minute = st.block / 100 % 100;
            hour = st.block / 10000;
        }
        hour = hour + st.day * 24;
        let scale = ten_pow(NANO_WIDTH - st.eaten as u32);
        proof {
            lemma_pow10_add(st.eaten as nat, (9 - st.eaten) as nat);
            lemma_pow10_values();
            lemma_mul_inequality(st.fract as int, pow10(st.eaten as nat) as int, scale as int);
            lemma_pow10_add((fsp - st.eaten) as nat, (9 - fsp) as nat);
            assert(st.fract * scale == (st.fract * pow10((fsp - st.eaten) as nat)) * pow10(
                (9 - fsp) as nat,
            )) by (nonlinear_arith)
                requires
                    scale == pow10((fsp - st.eaten) as nat) * pow10((9 - fsp) as nat),
            ;
            lemma_mod_multiples_basic(
                st.fract * pow10((fsp - st.eaten) as nat),
                pow10((9 - fsp) as nat) as int,
            );
        }
        let nano = st.fract * scale;
        Duration::build(
            DurationBuilder { neg: st.neg, hour, minute, second, nano, fsp, round_with_fsp: false },
        )
    }

    /// This duration at precision `fsp`: a wider precision only changes the tag,
    /// a narrower one rounds half-up and carries, failing past the largest hour.
    pub fn round_frac(self, fsp: i8) -> (r: Result<Duration, ParseError>)
        requires
            self.wf(),
        ensures
            agrees(r, round_spec(self@, fsp as int)),
    {
        let fsp = match check_fsp(fsp) {
            Ok(f) => f,
            Err(e) => return Err(e),
        };
        if fsp >= self.fsp() {
            proof {
                let old_unit = pow10((9 - self@.fsp) as nat) as int;
                let unit = pow10((9 - fsp) as nat) as int;
                let wider = pow10((fsp - self@.fsp) as nat) as int;
                lemma_pow10_add((9 - fsp) as nat, (fsp - self@.fsp) as nat);
                lemma_pow10_values();
                lemma_pow10_positive((9 - fsp) as nat);
                lemma_pow10_positive((fsp - self@.fsp) as nat);
                lemma_mod_mod(self@.nano as int, unit, wider);
                assert((9 - fsp) as nat + (fsp - self@.fsp) as nat == (9 - self@.fsp) as nat);
                assert(old_unit == unit * wider);
                lemma_small_mod(0, unit as nat);
            }
            return Ok(
                Duration::encode(
                    Time {
                        neg: self.neg(),
                        hour: self.hour(),
                        minute: self.minute(),
                        second: self.second(),
                        nano: self.nano(),
                        fsp,
                    },
                ),
            );
        }
        Duration::build(
            DurationBuilder {
                neg: self.neg(),
                hour: self.hour(),
                minute: self.minute(),
                second: self.second(),
                nano: self.nano(),
                fsp,
                round_with_fsp: true,
            },
        )
    }

    /// The duration of `secs` whole seconds and `nanos` nanoseconds, rounded to `fsp`.
    pub fn new(secs: u64, nanos: u32, neg: bool, fsp: i8) -> (r: Result<Duration, ParseError>)
        ensures
            agrees(r, new_spec(secs, nanos, neg, fsp as int)),
    {
        let fsp = match check_fsp(fsp) {
            Ok(f) => f,
            Err(e) => return Err(e),
        };
        if nanos as u64 >= NANOS_PER_SEC {
            return Err(ParseError::OutOfRange);
        }
        Duration::build(
            DurationBuilder {
                neg,
                hour: secs / 3600,
                minute: secs % 3600 / 60,
                second: secs % 60,
                nano: nanos as u64,
                fsp,
                round_with_fsp: true,
            },
        )
    }
}

/// Taking whole seconds off a nanosecond count keeps its digits beyond `fsp` clear.
proof fn lemma_keeps_fsp_digits(x: int, fsp: nat)
    requires
        fsp <= 9,
        x % pow10((9 - fsp) as nat) as int == 0,
    ensures
        (x % 1_000_000_000) % pow10((9 - fsp) as nat) as int == 0,
{
    lemma_pow10_add((9 - fsp) as nat, fsp);
    lemma_pow10_values();
    lemma_pow10_positive((9 - fsp) as nat);
    lemma_pow10_positive(fsp);
    lemma_mod_mod(x, pow10((9 - fsp) as nat) as int, pow10(fsp) as int);
}

proof fn lemma_rounding_unit_bounds(fsp: u8)
    requires
        fsp <= 6,
    ensures
        pow10((8 - fsp) as nat) <= 100_000_000,
        pow10((8 - fsp) as nat) >= 100,
{
    lemma_pow10_values();
    assert(fsp == 0 || fsp == 1 || fsp == 2 || fsp == 3 || fsp == 4 || fsp == 5 || fsp == 6);
}

/// A parsed duration has every field in range, and reading its fields back out of the packed
/// word gives each of them unchanged.
pub proof fn lemma_parse_encode_round_trip(s: Seq<u8>, fsp: int)
    ensures
        parse_spec(s, fsp) matches Ok(t) ==> t.in_range() && unpack(pack(t)) == t,
{
    if let Ok(t) = parse_spec(s, fsp) {
        lemma_unpack_pack(t);
    }
}

/// Rounding a duration to its own precision gives it back unchanged.
pub proof fn lemma_round_same_fsp_is_identity(t: Time)
    requires
        t.valid(),
    ensures
        round_spec(t, t.fsp as int) == Ok::<Time, ParseError>(t),
{
}

/// Rounding to a wider precision keeps sign, hour, minute, second and nanoseconds,
/// and changes only the precision tag.
pub proof fn lemma_round_wider_fsp_keeps_magnitude(t: Time, fsp: int)
    requires
        t.valid(),
        t.fsp <= fsp <= 6,
    ensures
        round_spec(t, fsp) == Ok::<Time, ParseError>(Time { fsp: fsp as u8, ..t }),
{
}

} // verus!

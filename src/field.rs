//! Constants of the TIME domain, the error type and the per-field range checks.

use vstd::prelude::*;

verus! {

/// Requested precision meaning "not given"; it stands for `DEFAULT_FSP`.
pub const UNSPECIFIED_FSP: i8 = -1;
pub const MAX_FSP: i8 = 6;
pub const MIN_FSP: i8 = 0;
pub const DEFAULT_FSP: i8 = 0;
pub const NANOS_PER_SEC: u64 = 1_000_000_000;
/// Number of decimal digits of a nanosecond count within one second.
pub const NANO_WIDTH: u32 = 9;
pub const MAX_HOURS: u64 = 838;
pub const MAX_MINUTES: u64 = 59;
pub const MAX_SECONDS: u64 = 59;

/// Why a literal or a precision change was rejected.
#[derive(Debug, Clone, Copy, PartialEq, Eq, Structural)]
pub enum ParseError {
    /// An unexpected byte, a dangling colon, a second sign or a lone sign.
    InvalidFormat,
    /// An hour, minute or second outside its domain, also after a rounding carry.
    OutOfRange,
    /// A requested precision outside `0..=6` that is not the unspecified marker.
    InvalidFsp,
}

/// `10^n`.
pub open spec fn pow10(n: nat) -> nat
    decreases n,
{
    if n == 0 {
        1
    } else {
        10 * pow10((n - 1) as nat)
    }
}

pub proof fn lemma_pow10_values()
    ensures
        pow10(0) == 1,
        pow10(1) == 10,
        pow10(2) == 100,
        pow10(3) == 1000,
        pow10(4) == 10000,
        pow10(5) == 100000,
        pow10(6) == 1000000,
        pow10(7) == 10000000,
        pow10(8) == 100000000,
        pow10(9) == 1000000000,
{
    reveal_with_fuel(pow10, 10);
}

pub proof fn lemma_pow10_monotone(a: nat, b: nat)
    requires
        a <= b,
    ensures
        pow10(a) <= pow10(b),
    decreases b,
{
    if a < b {
        lemma_pow10_monotone(a, (b - 1) as nat);
    }
}

pub proof fn lemma_pow10_add(a: nat, b: nat)
    ensures
        pow10(a + b) == pow10(a) * pow10(b),
    decreases a,
{
    if a > 0 {
        let c = (a - 1) as nat;
        lemma_pow10_add(c, b);
        assert(pow10(a + b) == 10 * pow10(c + b));
        assert(pow10(a) == 10 * pow10(c));
        let (x, y) = (pow10(c) as int, pow10(b) as int);
        assert(10 * (x * y) == (10 * x) * y) by (nonlinear_arith);
    } else {
        assert(pow10(a) == 1);
        assert(a + b == b);
    }
}

pub proof fn lemma_pow10_positive(n: nat)
    ensures
        pow10(n) > 0,
    decreases n,
{
    if n > 0 {
        lemma_pow10_positive((n - 1) as nat);
    }
}

/// `10^n` for the exponents a nanosecond count needs.
pub fn ten_pow(n: u32) -> (r: u64)
    requires
        n <= NANO_WIDTH,
    ensures
        r == pow10(n as nat),
{
    proof {
        lemma_pow10_values();
    }
    match n {
        0 => 1,
        1 => 10,
        2 => 100,
        3 => 1000,
        4 => 10000,
        5 => 100000,
        6 => 1000000,
        7 => 10000000,
        8 => 100000000,
        _ => 1000000000,
    }
}

/// The precision that a requested `fsp` stands for.
pub open spec fn fsp_spec(fsp: int) -> Result<u8, ParseError> {
    if fsp == UNSPECIFIED_FSP as int {
        Ok(DEFAULT_FSP as u8)
    } else if MIN_FSP as int <= fsp <= MAX_FSP as int {
        Ok(fsp as u8)
    } else {
        Err(ParseError::InvalidFsp)
    }
}

pub fn check_fsp(fsp: i8) -> (r: Result<u8, ParseError>)
    ensures
        r == fsp_spec(fsp as int),
        r matches Ok(f) ==> f <= 6,
{
    if fsp == UNSPECIFIED_FSP {
        return Ok(DEFAULT_FSP as u8);
    }
    if fsp > MAX_FSP || fsp < MIN_FSP {
        return Err(ParseError::InvalidFsp);
    }
    Ok(fsp as u8)
}

pub fn check_hour(hour: u64) -> (r: Result<u64, ParseError>)
    ensures
        hour <= MAX_HOURS ==> r == Ok::<u64, ParseError>(hour),
        hour > MAX_HOURS ==> r == Err::<u64, ParseError>(ParseError::OutOfRange),
{
    if hour > MAX_HOURS {
        Err(ParseError::OutOfRange)
    } else {
        Ok(hour)
    }
}

pub fn check_minute(minute: u64) -> (r: Result<u64, ParseError>)
    ensures
        minute <= MAX_MINUTES ==> r == Ok::<u64, ParseError>(minute),
        minute > MAX_MINUTES ==> r == Err::<u64, ParseError>(ParseError::OutOfRange),
{
    if minute > MAX_MINUTES {
        Err(ParseError::OutOfRange)
    } else {
        Ok(minute)
    }
}

pub fn check_second(second: u64) -> (r: Result<u64, ParseError>)
    ensures
        second <= MAX_SECONDS ==> r == Ok::<u64, ParseError>(second),
        second > MAX_SECONDS ==> r == Err::<u64, ParseError>(ParseError::OutOfRange),
{
    if second > MAX_SECONDS {
        Err(ParseError::OutOfRange)
    } else {
        Ok(second)
    }
}

} // verus!

//! The byte-by-byte state machine that splits a literal into its day, hour, minute,
//! second and fraction parts.

use vstd::prelude::*;
use crate::field::{pow10, lemma_pow10_monotone, lemma_pow10_values, ParseError, MAX_HOURS, MAX_MINUTES, MAX_SECONDS};

verus! {

/// Largest value of a leading block of digits whose role is not yet known: the
/// compact `HHMMSS` form of the largest duration.
pub const MAX_BLOCK: u64 = 8385959;

const ZERO: u8 = 0x30;
const NINE: u8 = 0x39;
const DOT: u8 = 0x2e;
const COLON: u8 = 0x3a;
const MINUS: u8 = 0x2d;

#[derive(Debug, Clone, Copy, PartialEq, Eq, Structural)]
pub enum ScanState {
    Start,
    Block,
    PostBlock,
    Hour,
    MinuteColon,
    Minute,
    SecondColon,
    Second,
    Dot,
    Fraction,
    Consume,
    End,
}

impl ScanState {
    /// States from which a `.` starts the fraction.
    pub open spec fn takes_dot(self) -> bool {
        self is Start || self is Block || self is PostBlock || self is Hour || self is Minute
            || self is Second
    }

    /// States reached before any fraction digit.
    pub open spec fn before_fraction(self) -> bool {
        !(self is Fraction || self is Consume || self is End)
    }
}

/// What the scanner has gathered so far.
#[derive(Debug, Clone, Copy, PartialEq, Eq, Structural)]
pub struct Scan {
    pub state: ScanState,
    pub neg: bool,
    /// The leading run of digits while its role is open.
    pub block: u64,
    pub day: u64,
    pub hour: u64,
    pub minute: u64,
    pub second: u64,
    /// The fraction digits kept, plus one where the next digit rounds up.
    pub fract: u64,
    /// How many fraction digits `fract` holds.
    pub eaten: u8,
}

pub open spec fn initial_scan() -> Scan {
    Scan {
        state: ScanState::Start,
        neg: false,
        block: 0,
        day: 0,
        hour: 0,
        minute: 0,
        second: 0,
        fract: 0,
        eaten: 0,
    }
}

impl Scan {
    /// The bounds that every reachable scan keeps.
    pub open spec fn bounded(self, fsp: u8) -> bool {
        &&& self.block <= MAX_BLOCK
        &&& self.day <= MAX_BLOCK
        &&& self.hour <= MAX_BLOCK
        &&& self.minute <= 59
        &&& self.second <= 59
        &&& self.eaten <= fsp
        &&& self.fract <= pow10(self.eaten as nat)
        &&& self.state is Fraction ==> self.fract < pow10(self.eaten as nat)
        &&& self.state.before_fraction() ==> self.fract == 0 && self.eaten == 0
    }

    pub fn start() -> (r: Scan)
        ensures
            r == initial_scan(),
    {
        Scan {
            state: ScanState::Start,
            neg: false,
            block: 0,
            day: 0,
            hour: 0,
            minute: 0,
            second: 0,
            fract: 0,
            eaten: 0,
        }
    }
}

pub open spec fn digit_byte(c: u8) -> bool {
    48 <= c <= 57
}

/// The bytes that `u8::is_ascii_whitespace` accepts.
pub open spec fn space_byte(c: u8) -> bool {
    c == 32 || c == 9 || c == 10 || c == 12 || c == 13
}

fn is_digit(c: u8) -> (r: bool)
    ensures
        r == digit_byte(c),
{
    c >= ZERO && c <= NINE
}

fn is_space(c: u8) -> (r: bool)
    ensures
        r == space_byte(c),
{
    c == 0x20 || c == 0x09 || c == 0x0a || c == 0x0c || c == 0x0d
}

fn takes_dot(s: ScanState) -> (r: bool)
    ensures
        r == s.takes_dot(),
{
    match s {
        ScanState::Start | ScanState::Block | ScanState::PostBlock | ScanState::Hour
        | ScanState::Minute | ScanState::Second => true,
        _ => false,
    }
}

/// One transition of the scanner on byte `c`, with `fsp` fraction digits wanted.
pub open spec fn step_spec(st: Scan, c: u8, fsp: u8) -> Result<Scan, ParseError> {
    let d = (c - 48) as u64;
    if c == 46 && st.state.takes_dot() {
        Ok(Scan { state: ScanState::Dot, ..st })
    } else {
        match st.state {
            ScanState::Start => if digit_byte(c) {
                Ok(Scan { state: ScanState::Block, block: d, ..st })
            } else if space_byte(c) {
                Ok(st)
            } else if c == 45 && !st.neg {
                Ok(Scan { neg: true, ..st })
            } else {
                Err(ParseError::InvalidFormat)
            },
            ScanState::Block => if digit_byte(c) {
                if st.block * 10 + d > MAX_BLOCK {
                    Err(ParseError::OutOfRange)
                } else {
                    Ok(Scan { block: (st.block * 10 + d) as u64, ..st })
                }
            } else if space_byte(c) {
                Ok(Scan { state: ScanState::PostBlock, ..st })
            } else if c == 58 {
                Ok(Scan { state: ScanState::MinuteColon, hour: st.block, block: 0, ..st })
            } else {
                Err(ParseError::InvalidFormat)
            },
            ScanState::PostBlock => if digit_byte(c) {
                Ok(Scan { state: ScanState::Hour, hour: d, day: st.block, block: 0, ..st })
            } else if space_byte(c) {
                Ok(st)
            } else {
                Err(ParseError::InvalidFormat)
            },
            ScanState::Hour => if digit_byte(c) {
                if st.hour * 10 + d > MAX_HOURS {
                    Err(ParseError::OutOfRange)
                } else {
                    Ok(Scan { hour: (st.hour * 10 + d) as u64, ..st })
                }
            } else if space_byte(c) {
                Ok(Scan { state: ScanState::End, ..st })
            } else if c == 58 {
                Ok(Scan { state: ScanState::MinuteColon, ..st })
            } else {
                Err(ParseError::InvalidFormat)
            },
            ScanState::MinuteColon => if digit_byte(c) {
                Ok(Scan { state: ScanState::Minute, minute: d, ..st })
            } else {
                Err(ParseError::InvalidFormat)
            },
            ScanState::Minute => if digit_byte(c) {
                if st.minute * 10 + d > MAX_MINUTES {
                    Err(ParseError::OutOfRange)
                } else {
                    Ok(Scan { minute: (st.minute * 10 + d) as u64, ..st })
                }
            } else if space_byte(c) {
                Ok(Scan { state: ScanState::End, ..st })
            } else if c == 58 {
                Ok(Scan { state: ScanState::SecondColon, ..st })
            } else {
                Err(ParseError::InvalidFormat)
            },
            ScanState::SecondColon => if digit_byte(c) {
                Ok(Scan { state: ScanState::Second, second: d, ..st })
            } else {
                Err(ParseError::InvalidFormat)
            },
            ScanState::Second => if digit_byte(c) {
                if st.second * 10 + d > MAX_SECONDS {
                    Err(ParseError::OutOfRange)
                } else {
                    Ok(Scan { second: (st.second * 10 + d) as u64, ..st })
                }
            } else if space_byte(c) {
                Ok(Scan { state: ScanState::End, ..st })
            } else {
                Err(ParseError::InvalidFormat)
            },
            ScanState::Dot => if digit_byte(c) {
                if fsp == 0 {
                    Ok(Scan { state: ScanState::Consume, fract: if d > 4 { 1 } else { 0 }, ..st })
                } else {
                    Ok(Scan { state: ScanState::Fraction, fract: d, eaten: 1, ..st })
                }
            } else {
                Err(ParseError::InvalidFormat)
            },
            ScanState::Fraction => if digit_byte(c) {
                if st.eaten < fsp {
                    Ok(Scan { fract: (st.fract * 10 + d) as u64, eaten: (st.eaten + 1) as u8, ..st })
                } else {
                    Ok(
                        Scan {
                            state: ScanState::Consume,
                            fract: if d > 4 { (st.fract + 1) as u64 } else { st.fract },
                            ..st
                        },
                    )
                }
            } else if space_byte(c) {
                Ok(Scan { state: ScanState::End, ..st })
            } else {
                Err(ParseError::InvalidFormat)
            },
            ScanState::Consume => if digit_byte(c) {
                Ok(st)
            } else if space_byte(c) {
                Ok(Scan { state: ScanState::End, ..st })
            } else {
                Err(ParseError::InvalidFormat)
            },
            ScanState::End => if space_byte(c) {
                Ok(st)
            } else {
                Err(ParseError::InvalidFormat)
            },
        }
    }
}

/// The scanner run over all of `s`; the first failing byte decides the error.
pub open spec fn scan_spec(s: Seq<u8>, fsp: u8) -> Result<Scan, ParseError>
    decreases s.len(),
{
    if s.len() == 0 {
        Ok(initial_scan())
    } else {
        match scan_spec(s.drop_last(), fsp) {
            Ok(st) => step_spec(st, s.last(), fsp),
            Err(e) => Err(e),
        }
    }
}

proof fn lemma_scan_error_stays(s: Seq<u8>, i: int, fsp: u8, e: ParseError)
    requires
        0 <= i <= s.len(),
        scan_spec(s.subrange(0, i), fsp) == Err::<Scan, ParseError>(e),
    ensures
        scan_spec(s, fsp) == Err::<Scan, ParseError>(e),
    decreases s.len() - i,
{
    if i < s.len() {
        assert(s.subrange(0, i + 1).drop_last() == s.subrange(0, i));
        lemma_scan_error_stays(s, i + 1, fsp, e);
    } else {
        assert(s.subrange(0, i) == s);
    }
}

/// One transition of the scanner.
pub fn step(st: Scan, c: u8, fsp: u8) -> (r: Result<Scan, ParseError>)
    requires
        fsp <= 6,
        st.bounded(fsp),
    ensures
        r == step_spec(st, c, fsp),
        r matches Ok(n) ==> n.bounded(fsp),
{
    proof {
        lemma_pow10_values();
        lemma_pow10_monotone(st.eaten as nat, 6);
        assert(pow10(st.eaten as nat + 1) == 10 * pow10(st.eaten as nat));
    }
    if c == DOT && takes_dot(st.state) {
        return Ok(Scan { state: ScanState::Dot, ..st });
    }
    let digit = is_digit(c);
    let space = is_space(c);
    match st.state {
        ScanState::Start => if digit {
            Ok(Scan { state: ScanState::Block, block: (c - ZERO) as u64, ..st })
        } else if space {
            Ok(st)
        } else if c == MINUS && !st.neg {
            Ok(Scan { neg: true, ..st })
        } else {
            Err(ParseError::InvalidFormat)
        },
        ScanState::Block => if digit {
            let b = st.block * 10 + (c - ZERO) as u64;
            if b > MAX_BLOCK {
                Err(ParseError::OutOfRange)
            } else {
                Ok(Scan { block: b, ..st })
            }
        } else if space {
            Ok(Scan { state: ScanState::PostBlock, ..st })
        } else if c == COLON {
            Ok(Scan { state: ScanState::MinuteColon, hour: st.block, block: 0, ..st })
        } else {
            Err(ParseError::InvalidFormat)
        },
        ScanState::PostBlock => if digit {
            Ok(
                Scan {
                    state: ScanState::Hour,
                    hour: (c - ZERO) as u64,
                    day: st.block,
                    block: 0,
                    ..st
                },
            )
        } else if space {
            Ok(st)
        } else {
            Err(ParseError::InvalidFormat)
        },
        ScanState::Hour => if digit {
            let h = st.hour * 10 + (c - ZERO) as u64;
            if h > MAX_HOURS {
                Err(ParseError::OutOfRange)
            } else {
                Ok(Scan { hour: h, ..st })
            }
        } else if space {
            Ok(Scan { state: ScanState::End, ..st })
        } else if c == COLON {
            Ok(Scan { state: ScanState::MinuteColon, ..st })
        } else {
            Err(ParseError::InvalidFormat)
        },
        ScanState::MinuteColon => if digit {
            Ok(Scan { state: ScanState::Minute, minute: (c - ZERO) as u64, ..st })
        } else {
            Err(ParseError::InvalidFormat)
        },
        ScanState::Minute => if digit {
            let m = st.minute * 10 + (c - ZERO) as u64;
            if m > MAX_MINUTES {
                Err(ParseError::OutOfRange)
            } else {
                Ok(Scan { minute: m, ..st })
            }
        } else if space {
            Ok(Scan { state: ScanState::End, ..st })
        } else if c == COLON {
            Ok(Scan { state: ScanState::SecondColon, ..st })
        } else {
            Err(ParseError::InvalidFormat)
        },
        ScanState::SecondColon => if digit {
            Ok(Scan { state: ScanState::Second, second: (c - ZERO) as u64, ..st })
        } else {
            Err(ParseError::InvalidFormat)
        },
        ScanState::Second => if digit {
            let s = st.second * 10 + (c - ZERO) as u64;
            if s > MAX_SECONDS {
                Err(ParseError::OutOfRange)
            } else {
                Ok(Scan { second: s, ..st })
            }
        } else if space {
            Ok(Scan { state: ScanState::End, ..st })
        } else {
            Err(ParseError::InvalidFormat)
        },
        ScanState::Dot => if digit {
            let d = (c - ZERO) as u64;
            if fsp == 0 {
                Ok(Scan { state: ScanState::Consume, fract: if d > 4 { 1 } else { 0 }, ..st })
            } else {
                Ok(Scan { state: ScanState::Fraction, fract: d, eaten: 1, ..st })
            }
        } else {
            Err(ParseError::InvalidFormat)
        },
        ScanState::Fraction => if digit {
            let d = (c - ZERO) as u64;
            if st.eaten < fsp {
                Ok(Scan { fract: st.fract * 10 + d, eaten: st.eaten + 1, ..st })
            } else {
                Ok(
                    Scan {
                        state: ScanState::Consume,
                        fract: if d > 4 { st.fract + 1 } else { st.fract },
                        ..st
                    },
                )
            }
        } else if space {
            Ok(Scan { state: ScanState::End, ..st })
        } else {
            Err(ParseError::InvalidFormat)
        },
        ScanState::Consume => if digit {
            Ok(st)
        } else if space {
            Ok(Scan { state: ScanState::End, ..st })
        } else {
            Err(ParseError::InvalidFormat)
        },
        ScanState::End => if space {
            Ok(st)
        } else {
            Err(ParseError::InvalidFormat)
        },
    }
}

/// Runs the scanner over all of `s`.
pub fn scan(s: &[u8], fsp: u8) -> (r: Result<Scan, ParseError>)
    requires
        fsp <= 6,
    ensures
        r == scan_spec(s@, fsp),
        r matches Ok(st) ==> st.bounded(fsp),
{
    let mut st = Scan::start();
    let mut i: usize = 0;
    proof {
        lemma_pow10_values();
        assert(s@.subrange(0, 0) =~= Seq::<u8>::empty());
    }
    while i < s.len()
        invariant
            0 <= i <= s.len(),
            fsp <= 6,
            scan_spec(s@.subrange(0, i as int), fsp) == Ok::<Scan, ParseError>(st),
            st.bounded(fsp),
        decreases s.len() - i,
    {
        let c = s[i];
        proof {
            assert(s@.subrange(0, i + 1).drop_last() == s@.subrange(0, i as int));
        }
        match step(st, c, fsp) {
            Ok(n) => {
                st = n;
            },
            Err(e) => {
                proof {
                    lemma_scan_error_stays(s@, i + 1, fsp, e);
                }
                return Err(e);
            },
        }
        i = i + 1;
    }
    proof {
        assert(s@.subrange(0, s@.len() as int) == s@);
    }
    Ok(st)
}

} // verus!

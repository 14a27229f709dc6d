//! The packed word of a duration.
//!
//! | field  | bits   | width |
//! |--------|--------|-------|
//! | sign   | 63     | 1     |
//! | hour   | 62..53 | 10    |
//! | minute | 52..47 | 6     |
//! | second | 46..41 | 6     |
//! | nano   | 40..9  | 32    |
//! | fsp    | 8..1   | 8     |
//! | unused | 0      | 1     |

use vstd::prelude::*;
use crate::field::pow10;

verus! {

/// The fields of a duration, as plain values.
#[derive(Debug, Clone, Copy, PartialEq, Eq, Structural)]
pub struct Time {
    pub neg: bool,
    pub hour: u64,
    pub minute: u64,
    pub second: u64,
    pub nano: u64,
    pub fsp: u8,
}

impl Time {
    /// Every field within its domain.
    pub open spec fn in_range(self) -> bool {
        &&& self.hour <= 838
        &&& self.minute <= 59
        &&& self.second <= 59
        &&& self.nano < 1_000_000_000
        &&& self.fsp <= 6
    }

    /// The domain of every stored duration: each field in range, and no nanosecond
    /// digit set beyond the first `fsp`.
    pub open spec fn valid(self) -> bool {
        &&& self.in_range()
        &&& self.nano as int % pow10((9 - self.fsp) as nat) as int == 0
    }

    /// Each field fits its slot of the word.
    pub open spec fn fits(self) -> bool {
        &&& self.hour < 0x400
        &&& self.minute < 0x40
        &&& self.second < 0x40
        &&& self.nano < 0x1_0000_0000
    }
}

/// Reads the fields out of a word.
pub open spec fn unpack(w: u64) -> Time {
    Time {
        neg: (w >> 63u64) & 1u64 == 1u64,
        hour: (w >> 53u64) & 0x3ffu64,
        minute: (w >> 47u64) & 0x3fu64,
        second: (w >> 41u64) & 0x3fu64,
        nano: (w >> 9u64) & 0xffff_ffffu64,
        fsp: ((w >> 1u64) & 0xffu64) as u8,
    }
}

/// Writes the fields into a word, the unused bit clear.
pub open spec fn pack(t: Time) -> u64 {
    ((if t.neg { 1u64 } else { 0u64 }) << 63u64) | (t.hour << 53u64) | (t.minute << 47u64) | (
    t.second << 41u64) | (t.nano << 9u64) | ((t.fsp as u64) << 1u64)
}

/// Reading a word gives back every field that was written into it.
pub proof fn lemma_unpack_pack(t: Time)
    requires
        t.fits(),
    ensures
        unpack(pack(t)) == t,
{
    let n: u64 = if t.neg { 1 } else { 0 };
    let h = t.hour;
    let m = t.minute;
    let s = t.second;
    let ns = t.nano;
    let f = t.fsp as u64;
    let w = pack(t);
    assert(w == (n << 63u64) | (h << 53u64) | (m << 47u64) | (s << 41u64) | (ns << 9u64) | (f
        << 1u64));
    assert((w >> 63u64) & 1u64 == n && (w >> 53u64) & 0x3ffu64 == h && (w >> 47u64) & 0x3fu64
        == m && (w >> 41u64) & 0x3fu64 == s && (w >> 9u64) & 0xffff_ffffu64 == ns && (w >> 1u64)
        & 0xffu64 == f) by (bit_vector)
        requires
            w == (n << 63u64) | (h << 53u64) | (m << 47u64) | (s << 41u64) | (ns << 9u64) | (f
                << 1u64),
            n <= 1,
            h < 0x400,
            m < 0x40,
            s < 0x40,
            ns < 0x1_0000_0000,
            f < 0x100,
    ;
}

} // verus!

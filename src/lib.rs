//! Parsing of SQL-style TIME/DURATION literals such as `-1 1:2:3.123456` into a
//! bit-packed duration word, with half-up rounding to a fractional-second precision.

mod field;
mod layout;
mod scan;
mod duration;

pub use field::{
    check_fsp, check_hour, check_minute, check_second, fsp_spec, pow10, ten_pow, ParseError,
    DEFAULT_FSP, MAX_FSP, MAX_HOURS, MAX_MINUTES, MAX_SECONDS, MIN_FSP, NANOS_PER_SEC,
    NANO_WIDTH, UNSPECIFIED_FSP,
};
pub use layout::{lemma_unpack_pack, pack, unpack, Time};
pub use scan::{scan, scan_spec, step, step_spec, Scan, ScanState};
pub use duration::{
    agrees, build_spec, carry_spec, finish_spec, lemma_parse_encode_round_trip,
    lemma_round_same_fsp_is_identity, lemma_round_wider_fsp_keeps_magnitude, new_spec,
    parse_spec, round_nano, round_spec, Duration, DurationBuilder,
};

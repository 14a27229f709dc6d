use sql_duration::{
    check_fsp, check_hour, check_minute, check_second, ten_pow, Duration, DurationBuilder,
    ParseError,
};

fn fields(d: &Duration) -> (bool, u64, u64, u64, u64, u8) {
    (d.neg(), d.hour(), d.minute(), d.second(), d.nano(), d.fsp())
}

fn parsed(s: &str, fsp: i8) -> (bool, u64, u64, u64, u64, u8) {
    fields(&Duration::parse(s.as_bytes(), fsp).unwrap())
}

#[test]
fn dbg_parse() {
    match Duration::parse(b"11:30:45.123456", 6) {
        Ok(duration) => {
            println!("{:?}", duration.round_frac(1).unwrap());
        }
        Err(_) => {
            println!("error");
        }
    };
}

#[test]
fn it_works() {
    println!("{:#?}", Duration::parse(b"1:2:3.123", 6));
    println!("{:#?}", Duration::parse(b"1:2:3.1234567", 6));
    println!("{:#?}", Duration::parse(b"1:2:3.1234567", 4));
    println!("{:#?}", Duration::parse(b"1:2:3.123456", 4));
    println!("{:#?}", Duration::new(3761, 123456789, false, 6));
    println!("{:#?}", Duration::parse(b"1:59:59.99999", 4));
    println!("{:#?}", Duration::parse(b"- 1.12", 2));
    println!("{:#?}", Duration::parse(b"1 .12", 2));
    println!("{:#?}", Duration::parse(b"-1 .12", 2));
    println!("{:#?}", Duration::parse(b"-23", 2));
    println!("{:#?}", Duration::parse(b"  -1   1:2:3.99999  ", 2));

    println!("Should fail");
    println!("{:#?}", Duration::parse(b"- 1:1 .12", 2));
    println!("{:#?}", Duration::parse(b"- 1 .12", 2));
    println!("{:#?}", Duration::parse(b"-", 2));
    println!("{:#?}", Duration::parse(b"", 2));
}

#[test]
fn round_frac_narrows_with_half_up() {
    let d = Duration::parse(b"11:30:45.123456", 6).unwrap();
    assert_eq!(fields(&d.round_frac(1).unwrap()), (false, 11, 30, 45, 100_000_000, 1));
    let d = Duration::parse(b"1:2:3.15", 2).unwrap();
    assert_eq!(fields(&d.round_frac(1).unwrap()), (false, 1, 2, 3, 200_000_000, 1));
    let d = Duration::parse(b"1:2:3.14", 2).unwrap();
    assert_eq!(fields(&d.round_frac(1).unwrap()), (false, 1, 2, 3, 100_000_000, 1));
}

#[test]
fn parse_fields_read_back_exactly() {
    assert_eq!(parsed("1:2:3.123", 6), (false, 1, 2, 3, 123_000_000, 6));
    assert_eq!(parsed("-838:59:59.999999", 6), (true, 838, 59, 59, 999_999_000, 6));
    assert_eq!(parsed("12:34:56", -1), (false, 12, 34, 56, 0, 0));
}

#[test]
fn round_to_own_fsp_is_identity() {
    for (s, fsp) in [("1:2:3.123", 3), ("-2 3:4:5.6", 1), ("0", 0), ("838:59:59.999999", 6)] {
        let d = Duration::parse(s.as_bytes(), fsp).unwrap();
        let r = d.round_frac(d.fsp() as i8).unwrap();
        assert_eq!(fields(&r), fields(&d));
        assert_eq!(r, d);
    }
}

#[test]
fn round_to_wider_fsp_keeps_magnitude() {
    let d = Duration::parse(b"-1:2:3.12", 2).unwrap();
    assert_eq!(fields(&d.round_frac(5).unwrap()), (true, 1, 2, 3, 120_000_000, 5));
    assert_eq!(fields(&d.round_frac(6).unwrap()), (true, 1, 2, 3, 120_000_000, 6));
}

#[test]
fn round_frac_carry_past_max_hour_fails() {
    let d = Duration::parse(b"838:59:59.5", 1).unwrap();
    assert_eq!(d.round_frac(0), Err(ParseError::OutOfRange));
    let d = Duration::parse(b"1:59:59.5", 1).unwrap();
    assert_eq!(fields(&d.round_frac(0).unwrap()), (false, 2, 0, 0, 0, 0));
}

#[test]
fn round_frac_rejects_bad_fsp() {
    let d = Duration::parse(b"1:2:3", 0).unwrap();
    assert_eq!(d.round_frac(7), Err(ParseError::InvalidFsp));
    assert_eq!(d.round_frac(-2), Err(ParseError::InvalidFsp));
    assert_eq!(fields(&d.round_frac(-1).unwrap()), (false, 1, 2, 3, 0, 0));
}

#[test]
fn half_up_carries_into_seconds() {
    assert_eq!(parsed("0:0:0.5", 0), (false, 0, 0, 1, 0, 0));
    assert_eq!(parsed("0:0:0.4", 0), (false, 0, 0, 0, 0, 0));
}

#[test]
fn boundary_hours() {
    assert_eq!(parsed("838:59:59", 0), (false, 838, 59, 59, 0, 0));
    assert_eq!(Duration::parse(b"839:00:00", 0), Err(ParseError::OutOfRange));
    assert_eq!(Duration::parse(b"838:59:59.5", 0), Err(ParseError::OutOfRange));
}

#[test]
fn compact_block_is_split() {
    assert_eq!(parsed("112233", 0), (false, 11, 22, 33, 0, 0));
    assert_eq!(parsed("112233.445566", 5), (false, 11, 22, 33, 445_570_000, 5));
    assert_eq!(parsed("-23", 2), (true, 0, 0, 23, 0, 2));
    assert_eq!(Duration::parse(b"8385960", 0), Err(ParseError::OutOfRange));
    assert_eq!(Duration::parse(b"99", 0), Err(ParseError::OutOfRange));
}

#[test]
fn day_prefix_adds_hours() {
    assert_eq!(parsed("2 27:54:32.828", 3), (false, 75, 54, 32, 828_000_000, 3));
    assert_eq!(parsed("2 33:44:55.666777", 4), (false, 81, 44, 55, 666_800_000, 4));
    assert_eq!(parsed("1 23", 5), (false, 47, 0, 0, 0, 5));
    assert_eq!(parsed("1 23:12.1234567", 6), (false, 47, 12, 0, 123_457_000, 6));
    assert_eq!(parsed("  -1   1:2:3.99999  ", 2), (true, 25, 2, 4, 0, 2));
}

#[test]
fn negative_sign_survives_carry() {
    assert_eq!(parsed("-1:2:3.999999", 5), (true, 1, 2, 4, 0, 5));
    assert_eq!(parsed("1:59:59.99999", 4), (false, 2, 0, 0, 0, 4));
}

#[test]
fn leading_sign_and_dot_forms() {
    assert_eq!(parsed("- 1.12", 2), (true, 0, 0, 1, 120_000_000, 2));
    assert_eq!(parsed("1 .12", 2), (false, 0, 0, 1, 120_000_000, 2));
    assert_eq!(parsed(".5", 1), (false, 0, 0, 0, 500_000_000, 1));
}

#[test]
fn empty_literal_is_zero() {
    assert_eq!(parsed("", 2), (false, 0, 0, 0, 0, 2));
    assert_eq!(parsed("   ", 0), (false, 0, 0, 0, 0, 0));
}

#[test]
fn malformed_literals_fail() {
    for s in ["-", " - ", "1:2:", "1:", "--1", "1a", "1:2:3x", "1:2:3 4", "1.2.3", "1:2:3.", "a"] {
        let r = Duration::parse(s.as_bytes(), 2);
        if s == "1:2:3." {
            assert!(r.is_ok());
        } else {
            assert_eq!(r, Err(ParseError::InvalidFormat), "{}", s);
        }
    }
    assert_eq!(Duration::parse(b"1:60", 0), Err(ParseError::OutOfRange));
    assert_eq!(Duration::parse(b"1:2:60", 0), Err(ParseError::OutOfRange));
}

#[test]
fn bad_fsp_is_rejected() {
    assert_eq!(Duration::parse(b"1:2:3", 7), Err(ParseError::InvalidFsp));
    assert_eq!(Duration::parse(b"1:2:3", -2), Err(ParseError::InvalidFsp));
    assert_eq!(Duration::parse(b"", 7), Err(ParseError::InvalidFsp));
}

#[test]
fn new_splits_seconds_and_rounds() {
    let d = Duration::new(3761, 123456789, false, 6).unwrap();
    assert_eq!(fields(&d), (false, 1, 2, 41, 123_457_000, 6));
    let d = Duration::new(59, 999_999_999, true, 3).unwrap();
    assert_eq!(fields(&d), (true, 0, 1, 0, 0, 3));
    assert_eq!(Duration::new(839 * 3600, 0, false, 0), Err(ParseError::OutOfRange));
    assert_eq!(Duration::new(1, 1_000_000_000, false, 0), Err(ParseError::OutOfRange));
    assert_eq!(Duration::new(1, 0, false, 9), Err(ParseError::InvalidFsp));
}

#[test]
fn zero_is_all_zero() {
    assert_eq!(fields(&Duration::zero()), (false, 0, 0, 0, 0, 0));
}

#[test]
fn builder_check_ranges() {
    let b = DurationBuilder {
        neg: false,
        hour: 838,
        minute: 59,
        second: 59,
        nano: 0,
        fsp: 6,
        round_with_fsp: false,
    };
    assert!(b.check().is_ok());
    assert!(matches!(DurationBuilder { hour: 839, ..b }.check(), Err(ParseError::OutOfRange)));
    assert!(matches!(DurationBuilder { minute: 60, ..b }.check(), Err(ParseError::OutOfRange)));
    assert!(matches!(DurationBuilder { second: 60, ..b }.check(), Err(ParseError::OutOfRange)));
    assert!(matches!(DurationBuilder { fsp: 7, ..b }.check(), Err(ParseError::InvalidFsp)));
}

#[test]
fn field_checks() {
    assert_eq!(check_hour(838), Ok(838));
    assert_eq!(check_hour(839), Err(ParseError::OutOfRange));
    assert_eq!(check_minute(59), Ok(59));
    assert_eq!(check_minute(60), Err(ParseError::OutOfRange));
    assert_eq!(check_second(59), Ok(59));
    assert_eq!(check_second(60), Err(ParseError::OutOfRange));
    assert_eq!(check_fsp(-1), Ok(0));
    assert_eq!(check_fsp(6), Ok(6));
    assert_eq!(check_fsp(7), Err(ParseError::InvalidFsp));
    assert_eq!(check_fsp(-2), Err(ParseError::InvalidFsp));
    assert_eq!(ten_pow(0), 1);
    assert_eq!(ten_pow(9), 1_000_000_000);
}

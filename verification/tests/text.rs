use relay::text::{append_flag, append_i32, append_u64, parse_i32, parse_unsigned};

fn written(n: u64) -> String {
    let mut out = String::from("n=");
    append_u64(&mut out, n);
    out
}

fn written_signed(i: i32) -> String {
    let mut out = String::new();
    append_i32(&mut out, i);
    out
}

#[test]
fn unsigned_numbers_are_written_in_decimal() {
    assert_eq!(written(0), "n=0");
    assert_eq!(written(7), "n=7");
    assert_eq!(written(10), "n=10");
    assert_eq!(written(1_048_576), "n=1048576");
    assert_eq!(written(u64::MAX), format!("n={}", u64::MAX));
}

#[test]
fn signed_numbers_are_written_in_decimal() {
    assert_eq!(written_signed(0), "0");
    assert_eq!(written_signed(-1), "-1");
    assert_eq!(written_signed(16_384), "16384");
    assert_eq!(written_signed(i32::MIN), format!("{}", i32::MIN));
    assert_eq!(written_signed(i32::MAX), format!("{}", i32::MAX));
}

#[test]
fn flags_are_written_as_words() {
    let mut out = String::new();
    append_flag(&mut out, true);
    append_flag(&mut out, false);
    assert_eq!(out, "truefalse");
}

const SAMPLES: [&str; 28] = [
    "", "0", "7", "007", "+7", "-7", "-0", "+", "-", "++1", "+-1", " 1", "1 ", "1_000", "0x10",
    "12a", "255", "256", "65535", "65536", "2147483647", "2147483648", "-2147483648",
    "-2147483649", "18446744073709551615", "18446744073709551616",
    "00000000000000000000000000000000001", "\u{661}",
];

#[test]
fn unsigned_numbers_are_read_as_std_reads_them() {
    for text in SAMPLES {
        assert_eq!(
            parse_unsigned(text, u8::MAX as u64),
            text.parse::<u8>().ok().map(|v| v as u64),
            "{text:?}"
        );
        assert_eq!(
            parse_unsigned(text, u16::MAX as u64),
            text.parse::<u16>().ok().map(|v| v as u64),
            "{text:?}"
        );
        assert_eq!(parse_unsigned(text, u64::MAX), text.parse::<u64>().ok(), "{text:?}");
    }
}

#[test]
fn signed_numbers_are_read_as_std_reads_them() {
    for text in SAMPLES {
        assert_eq!(parse_i32(text), text.parse::<i32>().ok(), "{text:?}");
    }
}

#[test]
fn written_numbers_are_read_back() {
    for n in [0, 1, 9, 10, 99, 100, 65_535, u64::MAX] {
        let mut out = String::new();
        append_u64(&mut out, n);
        assert_eq!(parse_unsigned(&out, u64::MAX), Some(n));
    }
    for i in [0, 1, -1, 45, i32::MIN, i32::MAX] {
        assert_eq!(parse_i32(&written_signed(i)), Some(i));
    }
}

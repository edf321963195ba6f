use nrr::util::{itoa, itoa_u128, level_from_env, parse_usize, ExitCode};
use nrr::style::{paint, ColorSupport, Stream, Style};
use nrr::cli::invoked_as_nrx;

#[test]
fn itoa_formats_integers() {
    assert_eq!(itoa(0), "0");
    assert_eq!(itoa(7), "7");
    assert_eq!(itoa(42), "42");
    assert_eq!(itoa(1000), "1000");
    assert_eq!(itoa(-17), "-17");
    assert_eq!(itoa(u64::MAX as i128), "18446744073709551615");
    assert_eq!(itoa(i128::MIN), i128::MIN.to_string());
    assert_eq!(itoa(i128::MAX), i128::MAX.to_string());
}

#[test]
fn parse_usize_follows_std() {
    for text in ["0", "42", "+7", "007", "", "+", "-1", "-0", "12a", " 1", "1 ", "++1", "٣", "18446744073709551615", "18446744073709551616"] {
        assert_eq!(parse_usize(text), text.parse::<usize>().ok(), "input {text:?}");
    }
}

#[test]
fn level_defaults_to_one() {
    assert_eq!(level_from_env(None), 1);
    assert_eq!(level_from_env(Some("3")), 3);
    assert_eq!(level_from_env(Some("0")), 0);
    assert_eq!(level_from_env(Some("nested")), 1);
    assert_eq!(level_from_env(Some("")), 1);
}

#[test]
fn level_written_is_level_read() {
    for n in [0usize, 1, 2, 9, 10, 99, 12345, usize::MAX] {
        assert_eq!(level_from_env(Some(&itoa(n as i128))), n);
    }
}

#[test]
fn exit_codes() {
    assert_eq!(ExitCode::from_status(Some(3)), ExitCode(3));
    assert_eq!(ExitCode::from_status(None), ExitCode(1));
    assert_eq!(ExitCode(0).code_byte(), 0);
    assert_eq!(ExitCode(2).code_byte(), 2);
    assert_eq!(ExitCode(257).code_byte(), 1);
    assert_eq!(ExitCode(-1).code_byte(), 255);
}

#[test]
fn paint_styles() {
    assert_eq!(paint("x", Style::Magenta, true), "\x1b[35mx\x1b[39m");
    assert_eq!(paint("x", Style::Cyan, true), "\x1b[36mx\x1b[39m");
    assert_eq!(paint("x", Style::Red, true), "\x1b[31mx\x1b[39m");
    assert_eq!(paint("x", Style::Yellow, true), "\x1b[33mx\x1b[39m");
    assert_eq!(paint("x", Style::Bold, true), "\x1b[1mx\x1b[0m");
    assert_eq!(paint("x", Style::Dimmed, true), "\x1b[2mx\x1b[0m");
    assert_eq!(paint("x", Style::Dimmed, false), "x");
}

#[test]
fn color_support_by_stream() {
    let c = ColorSupport { stdout: true, stderr: false };
    assert!(c.on(Stream::Stdout));
    assert!(!c.on(Stream::Stderr));
}

#[test]
fn nrx_file_names() {
    assert!(invoked_as_nrx("nrx"));
    assert!(invoked_as_nrx("nrx.exe"));
    assert!(!invoked_as_nrx("nrr"));
    assert!(!invoked_as_nrx("nrx2"));
    assert!(!invoked_as_nrx(""));
}

#[test]
fn itoa_u128_formats_every_unsigned_value() {
    assert_eq!(itoa_u128(0), "0");
    assert_eq!(itoa_u128(10), "10");
    assert_eq!(itoa_u128(u64::MAX as u128), "18446744073709551615");
    assert_eq!(itoa_u128(u128::MAX), u128::MAX.to_string());
    assert_eq!(itoa_u128(i128::MAX as u128 + 1), (i128::MAX as u128 + 1).to_string());
}

#[test]
fn decimal_text_parses_back_for_every_integer_type() {
    for n in [i8::MIN, -1, 0, 7, i8::MAX] {
        assert_eq!(itoa(n as i128).parse::<i8>(), Ok(n));
    }
    for n in [0u8, 9, u8::MAX] {
        assert_eq!(itoa(n as i128).parse::<u8>(), Ok(n));
    }
    for n in [i32::MIN, -42, 0, i32::MAX] {
        assert_eq!(itoa(n as i128).parse::<i32>(), Ok(n));
    }
    for n in [0u64, 1, u64::MAX] {
        assert_eq!(itoa(n as i128).parse::<u64>(), Ok(n));
    }
    for n in [isize::MIN, 0, isize::MAX] {
        assert_eq!(itoa(n as i128).parse::<isize>(), Ok(n));
    }
    for n in [i128::MIN, -1, i128::MAX] {
        assert_eq!(itoa(n).parse::<i128>(), Ok(n));
    }
    for n in [0u128, u128::MAX] {
        assert_eq!(itoa_u128(n).parse::<u128>(), Ok(n));
    }
    assert_eq!(itoa(-42), "-42");
    assert_eq!(itoa(0), "0");
}

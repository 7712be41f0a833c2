use transaction_etl::utils::num::{
    i64_to_decimal, int_error_message, parse_i32, parse_u32, push_decimal, push_zero_padded,
    IntErrorKind,
};

fn std_kind(e: &std::num::ParseIntError) -> IntErrorKind {
    match e.kind() {
        std::num::IntErrorKind::Empty => IntErrorKind::Empty,
        std::num::IntErrorKind::InvalidDigit => IntErrorKind::InvalidDigit,
        std::num::IntErrorKind::PosOverflow => IntErrorKind::PosOverflow,
        std::num::IntErrorKind::NegOverflow => IntErrorKind::NegOverflow,
        _ => panic!("unexpected kind"),
    }
}

const SAMPLES: [&str; 24] = [
    "", "+", "-", "0", "7", "+7", "-7", "007", "12a", " 1", "1 ", "4294967295", "4294967296",
    "2147483647", "2147483648", "-2147483648", "-2147483649", "99999999999999999999", "-0",
    "+-1", "--1", "１", "٣", "+0042",
];

#[test]
fn parse_u32_agrees_with_std() {
    for s in SAMPLES {
        match s.parse::<u32>() {
            Ok(n) => assert_eq!(parse_u32(s), Ok(n), "{:?}", s),
            Err(e) => assert_eq!(parse_u32(s), Err(std_kind(&e)), "{:?}", s),
        }
    }
}

#[test]
fn parse_i32_agrees_with_std() {
    for s in SAMPLES {
        match s.parse::<i32>() {
            Ok(n) => assert_eq!(parse_i32(s), Ok(n), "{:?}", s),
            Err(e) => assert_eq!(parse_i32(s), Err(std_kind(&e)), "{:?}", s),
        }
    }
}

#[test]
fn parse_error_kinds() {
    assert_eq!(parse_u32(""), Err(IntErrorKind::Empty));
    assert_eq!(parse_u32("x"), Err(IntErrorKind::InvalidDigit));
    assert_eq!(parse_u32("4294967296"), Err(IntErrorKind::PosOverflow));
    assert_eq!(parse_i32("-2147483649"), Err(IntErrorKind::NegOverflow));
    assert_eq!(parse_i32("-2147483648"), Ok(i32::MIN));
}

#[test]
fn error_messages_agree_with_std() {
    for s in ["", "x", "4294967296", "-2147483649"] {
        let e = s.parse::<i32>().err().or_else(|| s.parse::<u32>().err()).unwrap();
        assert_eq!(int_error_message(std_kind(&e)), e.to_string());
    }
    assert_eq!(int_error_message(IntErrorKind::InvalidDigit), "invalid digit found in string");
}

#[test]
fn decimal_text_agrees_with_to_string() {
    for n in [0i64, 1, -1, 9, 10, 12345, -987654321, i64::MAX, i64::MIN] {
        assert_eq!(i64_to_decimal(n), n.to_string());
    }
}

#[test]
fn decimal_and_zero_padding() {
    let mut out: Vec<char> = vec!['x'];
    push_decimal(&mut out, 120);
    assert_eq!(out.iter().collect::<String>(), "x120");
    let mut out: Vec<char> = Vec::new();
    push_zero_padded(&mut out, 7, 4);
    assert_eq!(out.iter().collect::<String>(), "0007");
    let mut out: Vec<char> = Vec::new();
    push_zero_padded(&mut out, 12345, 2);
    assert_eq!(out.iter().collect::<String>(), "12345");
    for (n, w) in [(0u64, 0usize), (5, 1), (42, 4), (2024, 4), (31, 2)] {
        let mut out: Vec<char> = Vec::new();
        push_zero_padded(&mut out, n, w);
        assert_eq!(out.iter().collect::<String>(), format!("{:0w$}", n, w = w));
    }
}

#[test]
fn decimal_text_reads_back() {
    for n in [0i32, 1, -1, 2024, -2024, i32::MAX, i32::MIN] {
        assert_eq!(parse_i32(&i64_to_decimal(n as i64)), Ok(n));
    }
    for (n, w) in [(0u32, 4usize), (7, 2), (4294967295, 12)] {
        let mut out: Vec<char> = Vec::new();
        push_zero_padded(&mut out, n as u64, w);
        assert_eq!(parse_u32(&out.iter().collect::<String>()), Ok(n));
    }
}

use transaction_etl::utils::str::{normalize_slashed_date, truncate_string};

#[test]
fn normalize_full_date() {
    assert_eq!(normalize_slashed_date("2024/03/05"), Ok("2024-03-05".to_string()));
}

#[test]
fn normalize_pads_short_parts() {
    assert_eq!(normalize_slashed_date("2024/3/5"), Ok("2024-03-05".to_string()));
    assert_eq!(normalize_slashed_date("5/1/1"), Ok("0005-01-01".to_string()));
    assert_eq!(normalize_slashed_date("0099/012/031"), Ok("0099-12-31".to_string()));
}

#[test]
fn normalize_rejects_signs() {
    assert_eq!(normalize_slashed_date("+2024/+1/+5"), Err("Invalid year: +2024".to_string()));
    assert_eq!(normalize_slashed_date("2024/+1/5"), Err("Invalid month: +1".to_string()));
    assert_eq!(normalize_slashed_date("2024/1/-5"), Err("Invalid day: -5".to_string()));
}

#[test]
fn normalize_is_idempotent_on_its_results() {
    for input in ["2024/3/5", "7/12/31", "0042/01/009"] {
        let s = normalize_slashed_date(input).unwrap();
        assert_eq!(normalize_slashed_date(&s.replace('-', "/")), Ok(s));
    }
}

#[test]
fn normalize_wrong_number_of_parts() {
    assert_eq!(
        normalize_slashed_date("2024-03-05"),
        Err("Invalid date format: 2024-03-05".to_string())
    );
    assert_eq!(
        normalize_slashed_date("2024/03/05/01"),
        Err("Invalid date format: 2024/03/05/01".to_string())
    );
    assert_eq!(normalize_slashed_date(""), Err("Invalid date format: ".to_string()));
    assert_eq!(normalize_slashed_date("//"), Err("Invalid year: ".to_string()));
}

#[test]
fn normalize_unparsable_parts() {
    assert_eq!(normalize_slashed_date("abc/01/01"), Err("Invalid year: abc".to_string()));
    assert_eq!(normalize_slashed_date("2024/x/01"), Err("Invalid month: x".to_string()));
    assert_eq!(normalize_slashed_date("2024/01/ 1"), Err("Invalid day:  1".to_string()));
    assert_eq!(normalize_slashed_date("-1/01/01"), Err("Invalid year: -1".to_string()));
    assert_eq!(
        normalize_slashed_date("4294967296/01/01"),
        Err("Invalid year: 4294967296".to_string())
    );
}

#[test]
fn normalize_parts_are_parsed_before_ranges_are_checked() {
    assert_eq!(normalize_slashed_date("0/x/1"), Err("Invalid month: x".to_string()));
}

#[test]
fn normalize_out_of_range() {
    assert_eq!(normalize_slashed_date("0/01/01"), Err("Year out of range: 0".to_string()));
    assert_eq!(normalize_slashed_date("10000/01/01"), Err("Year out of range: 10000".to_string()));
    assert_eq!(normalize_slashed_date("2024/13/01"), Err("Month out of range: 13".to_string()));
    assert_eq!(normalize_slashed_date("2024/00/01"), Err("Month out of range: 0".to_string()));
    assert_eq!(normalize_slashed_date("2024/12/32"), Err("Day out of range: 32".to_string()));
    assert_eq!(normalize_slashed_date("2024/12/0"), Err("Day out of range: 0".to_string()));
    assert_eq!(normalize_slashed_date("0/0/0"), Err("Year out of range: 0".to_string()));
}

#[test]
fn normalize_round_trip_of_written_dates() {
    for (y, m, d) in [(1u32, 1u32, 1u32), (9999, 12, 31), (2023, 7, 9), (42, 10, 15)] {
        let written = format!("{}/{:02}/{}", y, m, d);
        assert_eq!(
            normalize_slashed_date(&written),
            Ok(format!("{:04}-{:02}-{:02}", y, m, d))
        );
    }
}

#[test]
fn truncate_keeps_short_text() {
    assert_eq!(truncate_string("hello", 5), "hello");
    assert_eq!(truncate_string("hello", 10), "hello");
    assert_eq!(truncate_string("", 0), "");
}

#[test]
fn truncate_cuts_ascii() {
    assert_eq!(truncate_string("hello world", 5), "hello...");
    assert_eq!(truncate_string("abc", 0), "...");
}

#[test]
fn truncate_counts_non_ascii_as_two() {
    assert_eq!(truncate_string("日本語", 6), "日本語");
    assert_eq!(truncate_string("日本語", 5), "日本...");
    assert_eq!(truncate_string("日本語", 1), "...");
    assert_eq!(truncate_string("a日b", 3), "a日b".chars().take(2).collect::<String>() + "...");
}

#[test]
fn truncate_result_width_is_within_limit_before_the_ellipsis() {
    let s = "アマゾン注文 ABC 123";
    for max in 0..30 {
        let r = truncate_string(s, max);
        let kept: String = r.strip_suffix("...").map(|x| x.to_string()).unwrap_or(r.clone());
        let width: usize = kept.chars().map(|c| if c.is_ascii() { 1 } else { 2 }).sum();
        assert!(width <= max);
        assert!(s.starts_with(&kept));
    }
}

#[test]
fn normalized_dates_have_the_iso_shape() {
    for input in ["1/1/1", "2024/12/31", "0999/7/04", "9999/01/1"] {
        let s = normalize_slashed_date(input).unwrap();
        let c: Vec<char> = s.chars().collect();
        assert_eq!(c.len(), 10);
        assert_eq!((c[4], c[7]), ('-', '-'));
        assert!(c.iter().enumerate().all(|(i, ch)| i == 4 || i == 7 || ch.is_ascii_digit()));
    }
}

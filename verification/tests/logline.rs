use response_time::logline::{decimal_string, format_timing_line, join_segments};

#[test]
fn decimal_zero() {
    assert_eq!(decimal_string(0), "0");
}

#[test]
fn decimal_one_digit() {
    assert_eq!(decimal_string(9), "9");
}

#[test]
fn decimal_round_number() {
    assert_eq!(decimal_string(5000), "5000");
}

#[test]
fn decimal_largest() {
    assert_eq!(decimal_string(u64::MAX), "18446744073709551615");
}

#[test]
fn join_no_segments() {
    let segs: Vec<String> = vec![];
    assert_eq!(join_segments(&segs), "");
}

#[test]
fn join_one_segment() {
    let segs = vec![String::from("index.html")];
    assert_eq!(join_segments(&segs), "index.html");
}

#[test]
fn join_two_segments() {
    let segs = vec![String::from("a"), String::from("b")];
    assert_eq!(join_segments(&segs), "a/b");
}

#[test]
fn format_line_exact_ms() {
    let segs = vec![String::from("a"), String::from("b")];
    assert_eq!(format_timing_line("GET", &segs, 1_500_000), "GET /a/b took: 1 ms");
}

#[test]
fn format_line_exact_ns() {
    let segs = vec![String::from("x")];
    assert_eq!(format_timing_line("POST", &segs, 0), "POST /x took: 0 ns");
}

#[test]
fn format_line_exact_us() {
    let segs = vec![String::from("img"), String::from("logo.png")];
    assert_eq!(format_timing_line("GET", &segs, 1000), "GET /img/logo.png took: 1 μs");
}

#[test]
fn format_line_large_seconds() {
    let segs: Vec<String> = vec![];
    assert_eq!(format_timing_line("GET", &segs, 5_000_000_000_000), "GET / took: 5000 s");
}

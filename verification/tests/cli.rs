use response_time::cli::{parse_port, resolve_dir, resolve_port, resolve_timing};

#[test]
fn port_parses() {
    assert_eq!(parse_port("8080"), Some(8080));
}

#[test]
fn port_zero() {
    assert_eq!(parse_port("0"), Some(0));
}

#[test]
fn port_max() {
    assert_eq!(parse_port("65535"), Some(65535));
}

#[test]
fn port_just_too_large() {
    assert_eq!(parse_port("65536"), None);
}

#[test]
fn port_far_too_large() {
    assert_eq!(parse_port("99999999999999999999"), None);
}

#[test]
fn port_empty() {
    assert_eq!(parse_port(""), None);
}

#[test]
fn port_not_numeric() {
    assert_eq!(parse_port("80a0"), None);
}

#[test]
fn port_leading_zeros() {
    assert_eq!(parse_port("008080"), Some(8080));
}

#[test]
fn port_default_when_flag_absent() {
    assert_eq!(resolve_port(None), Some(8080));
}

#[test]
fn port_flag_used() {
    assert_eq!(resolve_port(Some("3000")), Some(3000));
}

#[test]
fn port_flag_invalid() {
    assert_eq!(resolve_port(Some("http")), None);
}

#[test]
fn dir_default_when_flag_absent() {
    assert_eq!(resolve_dir(None), ".");
}

#[test]
fn dir_flag_used() {
    assert_eq!(resolve_dir(Some(String::from("www"))), "www");
}

#[test]
fn timing_on_by_default() {
    assert!(resolve_timing(None));
}

#[test]
fn timing_off_only_on_exact_false() {
    assert!(!resolve_timing(Some(String::from("false"))));
}

#[test]
fn timing_on_for_true() {
    assert!(resolve_timing(Some(String::from("true"))));
}

#[test]
fn timing_on_for_anything_else() {
    assert!(resolve_timing(Some(String::from("False"))));
    assert!(resolve_timing(Some(String::from("0"))));
}

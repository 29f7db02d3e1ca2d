use diamond_market::catchers::{internal_server_error, not_found};
use diamond_market::text::{decimal_string, hex_string, push_decimal, push_radix, push_text};

#[test]
fn decimal_of_zero_is_zero() {
    assert_eq!(decimal_string(0), "0");
}

#[test]
fn decimal_matches_format() {
    for n in [1u64, 9, 10, 99, 100, 12345, 4294967295, u64::MAX] {
        assert_eq!(decimal_string(n), format!("{}", n));
    }
}

#[test]
fn hex_matches_format() {
    for n in [0u64, 1, 15, 16, 255, 0xdeadbeef, u64::MAX] {
        assert_eq!(hex_string(n), format!("{:x}", n));
    }
    assert_eq!(hex_string(255), "ff");
    assert_eq!(hex_string(u64::MAX), "ffffffffffffffff");
}

#[test]
fn pushes_append() {
    let mut s = String::from("n=");
    push_decimal(&mut s, 42);
    push_text(&mut s, ", bin=");
    push_radix(&mut s, 5, 2);
    assert_eq!(s, "n=42, bin=101");
}

#[test]
fn not_found_names_the_path() {
    let r = not_found("/nowhere");
    assert_eq!(r.code, 404);
    assert_eq!(r.message, "'/nowhere' not found");
}

#[test]
fn server_error_quotes_the_request() {
    let r = internal_server_error("GET /get");
    assert_eq!(r.code, 500);
    assert!(r.message.starts_with("Welp, it looks like either the server broke on it's own"));
    assert!(r.message.ends_with("The following caused an internal server error: 'GET /get'."));
}

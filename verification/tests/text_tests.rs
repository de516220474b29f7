use frontend::text::{chars_of, push_decimal, push_str, str_contains, str_eq, str_eq_ignore_ascii_case};

fn decimal(n: u64) -> String {
    let mut s = String::new();
    push_decimal(&mut s, n);
    s
}

#[test]
fn decimal_writes_integers() {
    assert_eq!(decimal(0), "0");
    assert_eq!(decimal(7), "7");
    assert_eq!(decimal(1024), "1024");
    assert_eq!(decimal(u64::MAX), "18446744073709551615");
}

#[test]
fn push_decimal_appends() {
    let mut s = String::from("x=");
    push_decimal(&mut s, 305);
    assert_eq!(s, "x=305");
}

#[test]
fn push_str_appends_unicode() {
    let mut s = String::from("host: ");
    push_str(&mut s, "héllo · ok");
    assert_eq!(s, "host: héllo · ok");
}

#[test]
fn chars_in_order() {
    let v = chars_of("a·b");
    assert_eq!(v, vec!['a', '·', 'b']);
    assert!(chars_of("").is_empty());
}

#[test]
fn substring_search() {
    assert!(str_contains("192.168.1.50 10.0.0.1", "168.1"));
    assert!(str_contains("abc", ""));
    assert!(str_contains("", ""));
    assert!(!str_contains("", "a"));
    assert!(!str_contains("ssh brute", "brutes"));
    assert!(str_contains("ssh brute", "brute"));
}

#[test]
fn ascii_case_insensitive_equality() {
    assert!(str_eq_ignore_ascii_case("TCP", "tcp"));
    assert!(str_eq_ignore_ascii_case("Dns", "dNS"));
    assert!(!str_eq_ignore_ascii_case("udp", "tcp"));
    assert!(!str_eq_ignore_ascii_case("icmp", "icmpv6"));
    assert!(!str_eq_ignore_ascii_case("É", "é"));
}

#[test]
fn exact_equality() {
    assert!(str_eq("login", "login"));
    assert!(!str_eq("login", "Login"));
    assert!(!str_eq("log", "login"));
}


use consul::address::{digit_of, parse_port, push_decimal, DEFAULT_PORT};
use consul::text::{chars_of, find_last, starts_with};
use consul::{ConfigBuilder, ConfigError};

#[test]
fn default_port_is_8500() {
    assert_eq!(DEFAULT_PORT, 8500);
}

#[test]
fn digit_of_reads_the_ten_digits() {
    assert_eq!(digit_of('0'), Some(0));
    assert_eq!(digit_of('7'), Some(7));
    assert_eq!(digit_of('9'), Some(9));
}

#[test]
fn digit_of_refuses_other_characters() {
    assert_eq!(digit_of('/'), None);
    assert_eq!(digit_of(':'), None);
    assert_eq!(digit_of('a'), None);
    assert_eq!(digit_of('+'), None);
    assert_eq!(digit_of('\u{0663}'), None);
    assert_eq!(digit_of('\u{ff15}'), None);
}

#[test]
fn parse_port_reads_plain_digits() {
    assert_eq!(parse_port("8500"), Some(8500));
    assert_eq!(parse_port("0"), Some(0));
    assert_eq!(parse_port("7555"), Some(7555));
}

#[test]
fn parse_port_accepts_a_plus_sign() {
    assert_eq!(parse_port("+80"), Some(80));
    assert_eq!(parse_port("++80"), None);
    assert_eq!(parse_port("+"), None);
}

#[test]
fn parse_port_accepts_leading_zeros() {
    assert_eq!(parse_port("0080"), Some(80));
    assert_eq!(parse_port("000000000000000000000000001"), Some(1));
}

#[test]
fn parse_port_stops_at_sixteen_bits() {
    assert_eq!(parse_port("65535"), Some(65535));
    assert_eq!(parse_port("65536"), None);
    assert_eq!(parse_port("70000"), None);
    assert_eq!(parse_port("99999999999999999999999999"), None);
}

#[test]
fn parse_port_refuses_what_is_no_number() {
    assert_eq!(parse_port(""), None);
    assert_eq!(parse_port("-1"), None);
    assert_eq!(parse_port("-0"), None);
    assert_eq!(parse_port(" 80"), None);
    assert_eq!(parse_port("80 "), None);
    assert_eq!(parse_port("80a"), None);
    assert_eq!(parse_port("8_0"), None);
    assert_eq!(parse_port("1]"), None);
    assert_eq!(parse_port("\u{ff18}\u{ff10}"), None);
}

#[test]
fn parse_port_agrees_with_std() {
    let samples = [
        "", "+", "-", "0", "+0", "-0", "1", "65535", "65536", "065535", "+65535", "12x", "x12",
        "1 2", "٣", "4294967296", "00000", "+-1", "8500",
    ];
    for s in samples {
        assert_eq!(parse_port(s), s.parse::<u16>().ok(), "text {:?}", s);
    }
}

#[test]
fn push_decimal_writes_without_leading_zeros() {
    for (n, text) in [(0u16, "0"), (9, "9"), (10, "10"), (8500, "8500"), (65535, "65535")] {
        let mut out = String::new();
        push_decimal(&mut out, n);
        assert_eq!(out, text);
    }
}

#[test]
fn push_decimal_appends_to_what_is_there() {
    let mut out = String::from("localhost:");
    push_decimal(&mut out, 8500);
    assert_eq!(out, "localhost:8500");
}

#[test]
fn push_decimal_then_parse_port_gives_the_port_back() {
    for n in [0u16, 1, 9, 10, 99, 100, 443, 8500, 8501, 9999, 10000, 65534, 65535] {
        let mut out = String::new();
        push_decimal(&mut out, n);
        assert_eq!(parse_port(&out), Some(n));
    }
}

#[test]
fn chars_of_lists_characters_not_bytes() {
    assert_eq!(chars_of(""), Vec::<char>::new());
    assert_eq!(chars_of("a:b"), vec!['a', ':', 'b']);
    assert_eq!(chars_of("h\u{e9}!"), vec!['h', '\u{e9}', '!']);
}

#[test]
fn starts_with_compares_prefixes() {
    assert!(starts_with("http://x", "http://"));
    assert!(starts_with("https://x", "http"));
    assert!(!starts_with("https://x", "http://"));
    assert!(starts_with("anything", ""));
    assert!(starts_with("", ""));
    assert!(!starts_with("htt", "http"));
    assert!(!starts_with("", "http"));
    assert!(!starts_with("HTTP://x", "http://"));
    assert!(starts_with("\u{e9}t\u{e9}", "\u{e9}t"));
}

#[test]
fn find_last_counts_characters() {
    assert_eq!(find_last("a:b:c", ':'), Some(3));
    assert_eq!(find_last("abc", ':'), None);
    assert_eq!(find_last("", ':'), None);
    assert_eq!(find_last(":", ':'), Some(0));
    assert_eq!(find_last("\u{e9}\u{e9}:x", ':'), Some(2));
}

#[test]
fn full_address_without_scheme_is_refused() {
    for addr in ["", "127.0.0.1:8500", "tcp://h:1", "HTTP://h:1", "http:/h", "http//h", " http://h", "ftp://http://h"] {
        match ConfigBuilder::from_full_address(addr) {
            Err(ConfigError::InvalidScheme) => {}
            other => panic!("{:?} gave {:?}", addr, other),
        }
    }
}

#[test]
fn full_address_with_nothing_after_the_scheme() {
    let b = ConfigBuilder::from_full_address("http://").unwrap();
    assert_eq!(b.scheme, Some("http".to_string()));
    assert_eq!(b.hostname, Some("".to_string()));
    assert_eq!(b.port, None);
    let b = ConfigBuilder::from_full_address("https://").unwrap();
    assert_eq!(b.scheme, Some("https".to_string()));
    assert_eq!(b.hostname, Some("".to_string()));
    assert_eq!(b.port, None);
}

#[test]
fn full_address_with_a_port_that_is_none() {
    for (addr, host) in [
        ("http://consul:", "consul"),
        ("http://consul:abc", "consul"),
        ("http://consul:70000", "consul"),
        ("http://consul:-1", "consul"),
        ("http://consul:80/v1", "consul"),
    ] {
        let b = ConfigBuilder::from_full_address(addr).unwrap();
        assert_eq!(b.hostname, Some(host.to_string()), "{:?}", addr);
        assert_eq!(b.port, None, "{:?}", addr);
    }
}

#[test]
fn full_address_splits_on_the_last_colon() {
    let b = ConfigBuilder::from_full_address("http://a:1:2").unwrap();
    assert_eq!(b.hostname, Some("a:1".to_string()));
    assert_eq!(b.port, Some(2));
    let b = ConfigBuilder::from_full_address("http://[::1]:8500").unwrap();
    assert_eq!(b.hostname, Some("[::1]".to_string()));
    assert_eq!(b.port, Some(8500));
    let b = ConfigBuilder::from_full_address("http://[::1]").unwrap();
    assert_eq!(b.hostname, Some("[:".to_string()));
    assert_eq!(b.port, None);
}

#[test]
fn full_address_keeps_other_settings_unset() {
    let b = ConfigBuilder::from_full_address("https://consul.example:8501").unwrap();
    assert_eq!(b.scheme, Some("https".to_string()));
    assert_eq!(b.hostname, Some("consul.example".to_string()));
    assert_eq!(b.port, Some(8501));
    assert_eq!(b.datacenter, None);
    assert_eq!(b.namespace, None);
    assert_eq!(b.token, None);
    assert_eq!(b.wait_time, None);
    assert_eq!(b.http_timeout, None);
}

#[test]
fn full_address_with_a_host_beyond_ascii() {
    let b = ConfigBuilder::from_full_address("http://k\u{f6}ln.example:+443").unwrap();
    assert_eq!(b.hostname, Some("k\u{f6}ln.example".to_string()));
    assert_eq!(b.port, Some(443));
}

#[test]
fn invalid_scheme_has_its_message() {
    let e = ConfigBuilder::from_full_address("tcp://127.0.0.2:7555").unwrap_err();
    assert_eq!(e.message(), "No valid HTTP scheme in address");
}

#[test]
fn address_of_a_builder_reads_back() {
    for (scheme, host, port) in [
        ("http", "localhost", 8500u16),
        ("https", "127.0.0.2", 7555),
        ("https", "a:b", 0),
        ("http", "", 65535),
        ("http", "[::1]", 1),
    ] {
        let address = ConfigBuilder::new()
            .with_scheme(scheme)
            .with_hostname(host)
            .with_port(port)
            .address();
        let b = ConfigBuilder::from_full_address(&address).unwrap();
        assert_eq!(b.scheme, Some(scheme.to_string()));
        assert_eq!(b.hostname, Some(host.to_string()));
        assert_eq!(b.port, Some(port));
    }
}

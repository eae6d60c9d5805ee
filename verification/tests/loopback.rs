use dsh_desktop::loopback::{parse_loopback_url, scan_loopback_url};
use dsh_desktop::text::split_whitespace;
use dsh_desktop::web_url::WebUrl;

#[test]
fn scans_the_printed_web_url() {
    let line = "dsh web: http://127.0.0.1:3080 (LAN: http://192.168.1.5:3080)";
    let url = scan_loopback_url(line).expect("loopback URL");
    assert_eq!(url.host_str(), Some("127.0.0.1"));
    assert_eq!(url.port(), Some(3080));
}

#[test]
fn ignores_non_loopback_urls() {
    assert!(scan_loopback_url("(LAN: http://192.168.1.5:3080)").is_none());
    assert!(scan_loopback_url("nothing here").is_none());
    assert!(scan_loopback_url("http://127.0.0.1").is_none());
}

#[test]
fn scans_loopback_url_tokens() {
    let line = "dsh web: http://127.0.0.1:3080 (LAN: http://192.168.1.5:3080)";
    let found = line.split_whitespace().find_map(parse_loopback_url);
    let url = found.expect("loopback URL");
    assert_eq!(url.host_str(), Some("127.0.0.1"));
    assert_eq!(url.port(), Some(3080));
    assert!(parse_loopback_url("http://192.168.1.5:3080").is_none());
    assert!(parse_loopback_url("http://127.0.0.1").is_none());
    assert!(parse_loopback_url("nothing here").is_none());
}

#[test]
fn scan_agrees_with_the_first_parsed_token() {
    for line in [
        "dsh web: http://127.0.0.1:3080 (LAN: http://192.168.1.5:3080)",
        "first http://localhost:4000, then http://[::1]:5000",
        "  \t http://[::1]:5000)\n",
        "http://example.com:80 http://127.0.0.1:80 http://localhost:9",
        "",
        "no urls at all",
    ] {
        let expected = line.split_whitespace().find_map(parse_loopback_url);
        assert_eq!(scan_loopback_url(line), expected, "line {line:?}");
    }
}

#[test]
fn strips_trailing_punctuation() {
    let url = parse_loopback_url("http://localhost:4000/app),").expect("loopback URL");
    assert_eq!(url.host_str(), Some("localhost"));
    assert_eq!(url.port(), Some(4000));
    assert_eq!(url.as_str(), "http://localhost:4000/app");
    let url = parse_loopback_url("http://[::1]:5000\"").expect("ipv6 loopback URL");
    assert_eq!(url.host_str(), Some("[::1]"));
    assert_eq!(url.port(), Some(5000));
}

#[test]
fn requires_an_explicit_non_default_port_and_the_http_prefix() {
    // Port 80 is http's default, so the parsed URL has no explicit port.
    assert!(parse_loopback_url("http://127.0.0.1:80").is_none());
    assert!(parse_loopback_url("https://127.0.0.1:3080").is_none());
    assert!(parse_loopback_url("HTTP://127.0.0.1:3080").is_none());
    assert!(parse_loopback_url("http://example.com:3080").is_none());
}

#[test]
fn normalizes_the_parsed_url() {
    let url = WebUrl::parse("HTTP://LOCALHOST:3080").expect("url");
    assert_eq!(url.as_str(), "http://localhost:3080/");
    assert_eq!(url.scheme(), "http");
    assert_eq!(url.host_str(), Some("localhost"));
    assert_eq!(url.port(), Some(3080));
    let origin = url.origin.clone().expect("tuple origin");
    assert_eq!(origin.scheme, "http");
    assert_eq!(origin.host, "localhost");
    assert_eq!(origin.port, 3080);
    let default_port = WebUrl::parse("https://example.com/").expect("url");
    assert_eq!(default_port.port(), None);
    assert_eq!(default_port.origin.expect("tuple origin").port, 443);
    let opaque = WebUrl::parse("mailto:user@example.com").expect("url");
    assert!(opaque.origin.is_none());
    assert_eq!(opaque.host_str(), None);
    assert!(WebUrl::parse("not a url").is_none());
}

#[test]
fn splits_at_unicode_whitespace() {
    assert_eq!(
        split_whitespace("  a\tbb\u{3000}ccc\u{a0}d \n"),
        vec!["a", "bb", "ccc", "d"]
    );
    assert!(split_whitespace(" \t\r\n").is_empty());
    assert!(split_whitespace("").is_empty());
    assert_eq!(split_whitespace("één twee"), vec!["één", "twee"]);
}

use rsocket_transport_websocket::address::{has_scheme, starts_with, with_default_scheme, with_scheme};

#[test]
fn starts_with_finds_a_prefix() {
    assert!(starts_with("ws://host", "ws://"));
    assert!(starts_with("abc", "abc"));
    assert!(starts_with("abc", ""));
    assert!(starts_with("", ""));
}

#[test]
fn starts_with_rejects_what_is_no_prefix() {
    assert!(!starts_with("ws:/host", "ws://"));
    assert!(!starts_with("ws", "ws://"));
    assert!(!starts_with("", "a"));
    assert!(!starts_with("xws://host", "ws://"));
    assert!(!starts_with("abd", "abc"));
}

#[test]
fn starts_with_compares_characters_not_bytes() {
    assert!(starts_with("héllo", "hé"));
    assert!(!starts_with("héllo", "he"));
    assert!(starts_with("日本語:80", "日本"));
    assert!(!starts_with("日", "日本"));
}

#[test]
fn scheme_is_found_as_ws_or_wss_and_two_slashes() {
    assert!(has_scheme("ws://127.0.0.1:7878"));
    assert!(has_scheme("ws://"));
    assert!(has_scheme("wss://127.0.0.1:7878"));
    assert!(has_scheme("wss://example.com:8443/rs"));
    assert!(has_scheme("wss://"));
    assert!(!has_scheme("127.0.0.1:7878"));
    assert!(!has_scheme("WS://127.0.0.1:7878"));
    assert!(!has_scheme("WSS://127.0.0.1:7878"));
    assert!(!has_scheme("ws:/127.0.0.1"));
    assert!(!has_scheme("wss:/127.0.0.1"));
    assert!(!has_scheme("wsss://127.0.0.1"));
    assert!(!has_scheme("wss"));
    assert!(!has_scheme("http://127.0.0.1"));
    assert!(!has_scheme(" ws://127.0.0.1"));
    assert!(!has_scheme(""));
}

#[test]
fn missing_scheme_is_put_in_front() {
    assert_eq!(with_default_scheme("127.0.0.1:7878"), "ws://127.0.0.1:7878");
    assert_eq!(with_default_scheme("example.com"), "ws://example.com");
    assert_eq!(with_default_scheme(""), "ws://");
    assert_eq!(with_default_scheme("wss:example.com"), "ws://wss:example.com");
}

#[test]
fn present_scheme_is_left_alone() {
    assert_eq!(with_default_scheme("ws://127.0.0.1:7878"), "ws://127.0.0.1:7878");
    assert_eq!(with_default_scheme("ws://example.com/rsocket?x=1"), "ws://example.com/rsocket?x=1");
    assert_eq!(with_default_scheme("ws://"), "ws://");
    assert_eq!(with_default_scheme("wss://example.com"), "wss://example.com");
    assert_eq!(with_default_scheme("wss://example.com:8443/rs"), "wss://example.com:8443/rs");
    assert_eq!(with_default_scheme("wss://"), "wss://");
}

#[test]
fn defaulting_twice_is_defaulting_once() {
    for address in ["127.0.0.1:7878", "ws://127.0.0.1:7878", "", "wss://h", "héllo:1"] {
        let once = with_default_scheme(address);
        let twice = with_default_scheme(&once);
        assert_eq!(once, twice);
        assert!(has_scheme(&once));
    }
}

#[test]
fn address_is_unchanged_behind_the_scheme() {
    for address in ["127.0.0.1:7878", "[::1]:80", "example.com:8080", "héllo:1"] {
        let text = with_default_scheme(address);
        assert_eq!(&text[..5], "ws://");
        assert_eq!(&text[5..], address);
    }
}

#[test]
fn secure_scheme_is_never_replaced() {
    for address in ["wss://example.com", "wss://127.0.0.1:7878/path", "wss://[::1]:1"] {
        let text = with_default_scheme(address);
        assert_eq!(text, address);
        assert!(starts_with(&text, "wss://"));
        assert!(!starts_with(&text, "ws://"));
    }
}

#[test]
fn socket_address_always_gets_the_scheme() {
    assert_eq!(with_scheme("127.0.0.1:7878"), "ws://127.0.0.1:7878");
    assert_eq!(with_scheme("[::1]:7878"), "ws://[::1]:7878");
    assert_eq!(with_scheme("ws://127.0.0.1:7878"), "ws://ws://127.0.0.1:7878");
    assert_eq!(with_scheme(""), "ws://");
}

use aw_cors::{cors, pattern_compiles, pattern_matches, AccessDecision, CorsPolicy, Method, PolicyConfig};

fn policy(port: u16, extra_origins: &[&str], testing: bool) -> CorsPolicy {
    let config = PolicyConfig {
        port,
        extra_origins: extra_origins.iter().map(|s| s.to_string()).collect(),
        testing,
    };
    match cors(&config) {
        Ok(policy) => policy,
        Err(e) => panic!("policy did not build: {:?}", e),
    }
}

fn allowed(policy: &CorsPolicy, origin: &str) -> bool {
    match policy.decide(Some(origin)) {
        AccessDecision::Allowed(_) => true,
        AccessDecision::Denied => false,
        AccessDecision::NotApplicable => panic!("an origin was given"),
    }
}

#[test]
fn default_config_allows_own_port_only() {
    let p = policy(5600, &[], false);
    assert!(allowed(&p, "http://127.0.0.1:5600"));
    assert!(!allowed(&p, "http://127.0.0.1:5601"));
    assert!(!allowed(&p, "http://evil.example.com"));
}

#[test]
fn test_mode_allows_harness_and_any_chrome_extension() {
    let p = policy(5600, &[], true);
    assert!(allowed(&p, "http://127.0.0.1:27180"));
    assert!(allowed(&p, "chrome-extension://random123"));
}

#[test]
fn loopback_and_localhost_allowed_in_both_modes() {
    for testing in [false, true] {
        let p = policy(5666, &[], testing);
        assert!(allowed(&p, "http://127.0.0.1:5666"));
        assert!(allowed(&p, "http://localhost:5666"));
        assert!(!allowed(&p, "https://localhost:5666"));
        assert!(!allowed(&p, "http://localhost:566"));
    }
}

#[test]
fn port_edges_are_written_in_decimal() {
    let p = policy(0, &[], false);
    assert!(allowed(&p, "http://127.0.0.1:0"));
    assert!(allowed(&p, "http://localhost:0"));
    assert!(!allowed(&p, "http://localhost:00"));
    let p = policy(65535, &[], false);
    assert!(allowed(&p, "http://127.0.0.1:65535"));
    assert!(allowed(&p, "http://localhost:65535"));
    let p = policy(10, &[], false);
    assert!(allowed(&p, "http://localhost:10"));
    assert!(!allowed(&p, "http://localhost:1"));
}

#[test]
fn extra_origins_match_exactly() {
    let p = policy(5600, &["https://example.org", "http://LAN.box:8080"], false);
    assert!(allowed(&p, "https://example.org"));
    assert!(allowed(&p, "http://LAN.box:8080"));
    assert!(!allowed(&p, "https://example.org/"));
    assert!(!allowed(&p, "https://example.or"));
    assert!(!allowed(&p, "https://exbmple.org"));
    assert!(!allowed(&p, "https://EXAMPLE.org"));
    assert!(!allowed(&p, "http://lan.box:8080"));
    assert!(!allowed(&p, "xhttps://example.org"));
}

#[test]
fn duplicate_and_empty_extra_origins() {
    let p = policy(5600, &["http://a.test", "http://a.test", ""], false);
    assert!(allowed(&p, "http://a.test"));
    assert!(allowed(&p, ""));
    assert!(!allowed(&p, "http://b.test"));
}

#[test]
fn own_chrome_extension_allowed_other_only_in_test_mode() {
    let p = policy(5600, &[], false);
    assert!(allowed(&p, "chrome-extension://nglaklhklhcoonedhgnpgddginnjdadi"));
    assert!(!allowed(&p, "chrome-extension://anything-else"));
    assert!(!allowed(&p, "chrome-extension://nglaklhklhcoonedhgnpgddginnjdadix"));
    assert!(!allowed(&p, "xchrome-extension://nglaklhklhcoonedhgnpgddginnjdadi"));
    let p = policy(5600, &[], true);
    assert!(allowed(&p, "chrome-extension://nglaklhklhcoonedhgnpgddginnjdadi"));
    assert!(allowed(&p, "chrome-extension://anything-else"));
}

#[test]
fn extra_origin_can_allow_a_chrome_extension() {
    let p = policy(5600, &["chrome-extension://anything-else"], false);
    assert!(allowed(&p, "chrome-extension://anything-else"));
    assert!(!allowed(&p, "chrome-extension://another"));
}

#[test]
fn firefox_extensions_allowed_in_both_modes() {
    for testing in [false, true] {
        let p = policy(5600, &[], testing);
        assert!(allowed(&p, "moz-extension://abcdef-1234"));
        assert!(allowed(&p, "moz-extension://"));
        assert!(allowed(&p, "moz-extension://.?*[ünïcode]"));
        assert!(!allowed(&p, "moz-extension:/abc"));
        assert!(!allowed(&p, "xmoz-extension://abc"));
        assert!(!allowed(&p, "moz-extension://a\nb"));
    }
}

#[test]
fn harness_origins_only_in_test_mode() {
    let p = policy(5600, &[], true);
    assert!(allowed(&p, "http://127.0.0.1:27180"));
    assert!(allowed(&p, "http://localhost:27180"));
    let p = policy(5600, &[], false);
    assert!(!allowed(&p, "http://127.0.0.1:27180"));
    assert!(!allowed(&p, "http://localhost:27180"));
}

#[test]
fn allowed_response_echoes_origin_without_credentials() {
    for testing in [false, true] {
        let p = policy(5600, &["https://example.org"], testing);
        for origin in ["http://localhost:5600", "https://example.org", "moz-extension://x"] {
            match p.decide(Some(origin)) {
                AccessDecision::Allowed(a) => {
                    assert_eq!(a.allow_origin, origin);
                    assert_eq!(a.allow_methods, vec![Method::Get, Method::Post, Method::Delete]);
                    assert!(a.allow_any_header);
                    assert!(!a.allow_credentials);
                }
                _ => panic!("origin should be allowed"),
            }
        }
    }
}

#[test]
fn missing_origin_is_not_applicable() {
    for testing in [false, true] {
        let p = policy(5600, &[], testing);
        assert!(matches!(p.decide(None), AccessDecision::NotApplicable));
    }
    let p = policy(5600, &[], false);
    assert!(matches!(p.decide(Some("http://evil.example.com")), AccessDecision::Denied));
}

#[test]
fn patterns_compile_or_are_refused() {
    assert!(pattern_compiles("moz-extension://.*"));
    assert!(pattern_compiles("a|ab"));
    assert!(!pattern_compiles("("));
    assert!(!pattern_compiles("[a-"));
}

#[test]
fn patterns_match_the_whole_text() {
    assert!(pattern_matches("a|ab", "ab"));
    assert!(pattern_matches("a|ab", "a"));
    assert!(!pattern_matches("a|ab", "abc"));
    assert!(!pattern_matches("b", "abc"));
    assert!(pattern_matches("http://[a-z]+\\.test", "http://foo.test"));
    assert!(!pattern_matches("http://[a-z]+\\.test", "http://foo.test.evil"));
    assert!(!pattern_matches("(", "("));
}

use proxy_manager::config::{Header, ProxyConfig};
use proxy_manager::forward::{
    failure_status, header_edits_for, host_header_value, outbound_proxy, request_header_edits,
    rewrite_url_header, target_url, HeaderEdit, UrlParts,
};

fn endpoint(remote_address: &str, remote_host: &str) -> ProxyConfig {
    let mut c = ProxyConfig::with_identity("id".to_string(), 0);
    c.remote_address = remote_address.to_string();
    c.remote_host = remote_host.to_string();
    c
}

fn inserted(edits: &[HeaderEdit], name: &str) -> Vec<String> {
    edits
        .iter()
        .filter_map(|e| match e {
            HeaderEdit::Insert(n, v) if n == name => Some(v.clone()),
            _ => None,
        })
        .collect()
}

#[test]
fn referer_is_pointed_at_target() {
    let c = endpoint("https://target.example", "");
    let edits = request_header_edits(&c, Some("http://original.example/a/b?x=1"), None);
    assert_eq!(inserted(&edits, "referer"), vec!["https://target.example/a/b?x=1".to_string()]);
}

#[test]
fn rewrite_url_header_replaces_scheme_and_host() {
    let r = rewrite_url_header("http://original.example/a/b?x=1", "target.example", Some("https"));
    assert_eq!(r.as_deref(), Some("https://target.example/a/b?x=1"));
    let r = rewrite_url_header("http://original.example/p", "t.example", None);
    assert_eq!(r.as_deref(), Some("http://t.example/p"));
}

#[test]
fn malformed_referer_is_left_alone() {
    assert_eq!(rewrite_url_header("not a url", "t.example", Some("https")), None);
    let c = endpoint("https://target.example", "");
    let edits = request_header_edits(&c, Some("not a url"), Some("also bad"));
    assert!(inserted(&edits, "referer").is_empty());
    assert!(inserted(&edits, "origin").is_empty());
}

#[test]
fn origin_is_pointed_at_target() {
    let c = endpoint("http://backend.local:9000", "");
    let edits = request_header_edits(&c, None, Some("https://app.example"));
    assert_eq!(inserted(&edits, "origin"), vec!["http://backend.local/".to_string()]);
}

#[test]
fn no_rewrite_when_disabled() {
    let mut c = endpoint("https://target.example", "");
    c.rewrite_host_headers = false;
    let edits = request_header_edits(&c, Some("http://original.example/a"), None);
    assert!(inserted(&edits, "referer").is_empty());
}

#[test]
fn host_header_from_remote_address_with_port() {
    let c = endpoint("http://backend.local:9000", "");
    let edits = request_header_edits(&c, None, None);
    assert!(matches!(&edits[0], HeaderEdit::Remove(n) if n == "host"));
    assert_eq!(inserted(&edits, "host"), vec!["backend.local:9000".to_string()]);
}

#[test]
fn host_header_default_port_is_dropped() {
    let c = endpoint("https://backend.local:443", "");
    assert_eq!(inserted(&request_header_edits(&c, None, None), "host"), vec!["backend.local".to_string()]);
}

#[test]
fn host_header_override_wins() {
    let c = endpoint("http://backend.local:9000", "virtual.example");
    assert_eq!(inserted(&request_header_edits(&c, None, None), "host"), vec!["virtual.example".to_string()]);
}

#[test]
fn default_config_sends_example_host() {
    let c = ProxyConfig::with_identity("d".to_string(), 0);
    assert_eq!(inserted(&request_header_edits(&c, None, None), "host"), vec!["example.com".to_string()]);
}

#[test]
fn host_header_value_from_parts() {
    let parts = Some(UrlParts {
        scheme: "http".to_string(),
        host: Some("h.example".to_string()),
        port: Some(81),
        path: "/".to_string(),
        query: None,
    });
    assert_eq!(host_header_value("", &parts).as_deref(), Some("h.example:81"));
    assert_eq!(host_header_value("o", &parts).as_deref(), Some("o"));
    assert_eq!(host_header_value("", &None), None);
}

#[test]
fn extra_headers_skip_host_and_empty_keys() {
    let mut c = endpoint("http://backend.local", "");
    c.headers = vec![
        Header { key: "HoSt".to_string(), value: "evil".to_string() },
        Header { key: "".to_string(), value: "x".to_string() },
        Header { key: "X-Api-Key".to_string(), value: "SECRET-REDACTED".to_string() },
    ];
    let edits = request_header_edits(&c, None, None);
    assert_eq!(inserted(&edits, "host"), vec!["backend.local".to_string()]);
    assert_eq!(inserted(&edits, "HoSt"), Vec::<String>::new());
    assert_eq!(inserted(&edits, "X-Api-Key"), vec!["SECRET-REDACTED".to_string()]);
    assert_eq!(edits.len(), 3);
}

#[test]
fn edits_for_given_parts_follow_order() {
    let mut c = endpoint("ignored", "");
    c.headers = vec![Header { key: "X-A".to_string(), value: "1".to_string() }];
    let parts = Some(UrlParts {
        scheme: "https".to_string(),
        host: Some("t.example".to_string()),
        port: None,
        path: "/".to_string(),
        query: None,
    });
    let edits = header_edits_for(&c, &parts, Some("http://o.example/q?z=2"), Some("http://o.example"));
    let names: Vec<String> = edits
        .iter()
        .map(|e| match e {
            HeaderEdit::Remove(n) => format!("-{}", n),
            HeaderEdit::Insert(n, v) => format!("{}={}", n, v),
        })
        .collect();
    assert_eq!(
        names,
        vec![
            "-host".to_string(),
            "host=t.example".to_string(),
            "referer=https://t.example/q?z=2".to_string(),
            "origin=https://t.example/".to_string(),
            "X-A=1".to_string(),
        ]
    );
}

#[test]
fn target_url_appends_path_and_query() {
    assert_eq!(target_url("http://example.com", "/status?a=1"), "http://example.com/status?a=1");
}

#[test]
fn failure_statuses() {
    assert_eq!(failure_status(true, false), 504);
    assert_eq!(failure_status(true, true), 504);
    assert_eq!(failure_status(false, true), 502);
    assert_eq!(failure_status(false, false), 500);
}

#[test]
fn blank_socks_proxy_is_ignored() {
    let mut c = endpoint("http://x", "");
    assert_eq!(outbound_proxy(&c), None);
    c.socks5_proxy = Some("   ".to_string());
    assert_eq!(outbound_proxy(&c), None);
    c.socks5_proxy = Some("socks5://127.0.0.1:1080".to_string());
    assert_eq!(outbound_proxy(&c).as_deref(), Some("socks5://127.0.0.1:1080"));
}

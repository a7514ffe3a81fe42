use smuggle_proxy::config::ProxyConfig;
use smuggle_proxy::forward::{forward, ForwardError, InboundRequest, OutboundRequest};
use smuggle_proxy::headers::Header;

fn header(name: &str, value: &str) -> Header {
    Header { name: name.to_string(), value: value.as_bytes().to_vec() }
}

fn request(method: &str, target: Option<&str>, headers: Vec<Header>) -> InboundRequest<String> {
    InboundRequest {
        method: method.to_string(),
        path_and_query: target.map(|t| t.to_string()),
        headers,
        body: String::from("payload"),
    }
}

fn config() -> ProxyConfig {
    ProxyConfig::new("127.0.0.1", 9000, "X-Smuggle-Host").unwrap()
}

fn header_pairs(out: &OutboundRequest<String>) -> Vec<(String, Vec<u8>)> {
    out.headers.iter().map(|h| (h.name.clone(), h.value.clone())).collect()
}

#[test]
fn get_with_smuggled_host_and_connection() {
    let req = request(
        "GET",
        Some("/foo?x=1"),
        vec![header("X-Smuggle-Host", "example.com"), header("Connection", "keep-alive")],
    );
    let out = forward(&config(), req).unwrap();
    assert_eq!(out.method, "GET");
    assert_eq!(out.uri.scheme, "http");
    assert_eq!(out.uri.authority, "127.0.0.1:9000");
    assert_eq!(out.uri.path_and_query, "/foo?x=1");
    assert_eq!(header_pairs(&out), vec![("host".to_string(), b"example.com".to_vec())]);
    assert_eq!(out.body, "payload");
}

#[test]
fn missing_smuggle_header_is_refused() {
    let req = request("GET", Some("/"), vec![header("Host", "proxy.local"), header("Accept", "*/*")]);
    assert!(matches!(forward(&config(), req), Err(ForwardError::MissingSmuggleHeader)));
}

#[test]
fn missing_smuggle_header_without_any_headers() {
    let req = request("POST", Some("/submit"), vec![]);
    assert!(matches!(forward(&config(), req), Err(ForwardError::MissingSmuggleHeader)));
}

#[test]
fn smuggle_header_matched_in_any_case() {
    let req = request("GET", Some("/"), vec![header("x-SMUGGLE-host", "a.example")]);
    let out = forward(&config(), req).unwrap();
    assert_eq!(header_pairs(&out), vec![("host".to_string(), b"a.example".to_vec())]);
}

#[test]
fn hop_by_hop_headers_stripped_in_any_case() {
    let req = request(
        "PUT",
        Some("/item/7"),
        vec![
            header("CONNECTION", "close"),
            header("keep-ALIVE", "timeout=5"),
            header("public", "GET"),
            header("Proxy-authenticate", "Basic"),
            header("transfer-encoding", "chunked"),
            header("UPGRADE", "websocket"),
            header("Accept", "text/html"),
            header("X-Smuggle-Host", "site.example"),
            header("X-Trace", "1"),
            header("X-Trace", "2"),
        ],
    );
    let out = forward(&config(), req).unwrap();
    assert_eq!(
        header_pairs(&out),
        vec![
            ("Accept".to_string(), b"text/html".to_vec()),
            ("X-Trace".to_string(), b"1".to_vec()),
            ("X-Trace".to_string(), b"2".to_vec()),
            ("host".to_string(), b"site.example".to_vec()),
        ]
    );
}

#[test]
fn existing_host_header_is_replaced() {
    let req = request(
        "GET",
        Some("/"),
        vec![header("Host", "proxy.local"), header("X-Smuggle-Host", "real.example"), header("HOST", "other")],
    );
    let out = forward(&config(), req).unwrap();
    assert_eq!(header_pairs(&out), vec![("host".to_string(), b"real.example".to_vec())]);
}

#[test]
fn first_smuggled_value_wins_and_all_are_removed() {
    let req = request(
        "GET",
        Some("/"),
        vec![header("X-Smuggle-Host", "first.example"), header("x-smuggle-host", "second.example")],
    );
    let out = forward(&config(), req).unwrap();
    assert_eq!(header_pairs(&out), vec![("host".to_string(), b"first.example".to_vec())]);
}

#[test]
fn smuggled_value_is_copied_verbatim() {
    let mut h = header("X-Smuggle-Host", "");
    h.value = vec![b' ', 0xff, b'x', b':', b'9'];
    let req = request("GET", Some("/"), vec![h]);
    let out = forward(&config(), req).unwrap();
    assert_eq!(out.headers[0].value, vec![b' ', 0xff, b'x', b':', b'9']);
}

#[test]
fn missing_path_is_a_uri_error() {
    let req = request("CONNECT", None, vec![header("X-Smuggle-Host", "example.com")]);
    assert!(matches!(forward(&config(), req), Err(ForwardError::UriConstruction)));
}

#[test]
fn missing_header_reported_before_missing_path() {
    let req = request("CONNECT", None, vec![]);
    assert!(matches!(forward(&config(), req), Err(ForwardError::MissingSmuggleHeader)));
}

#[test]
fn smuggle_header_named_like_hop_by_hop_never_found() {
    let cfg = ProxyConfig::new("127.0.0.1", 9000, "Upgrade").unwrap();
    let req = request("GET", Some("/"), vec![header("Upgrade", "example.com")]);
    assert!(matches!(forward(&cfg, req), Err(ForwardError::MissingSmuggleHeader)));
}

#[test]
fn path_and_query_kept_exactly() {
    let req = request("DELETE", Some("/a/b%20c?q=1&r=two#x"), vec![header("X-Smuggle-Host", "h")]);
    let out = forward(&config(), req).unwrap();
    assert_eq!(out.uri.path_and_query, "/a/b%20c?q=1&r=two#x");
    assert_eq!(out.method, "DELETE");
}

#[test]
fn many_requests_stay_independent() {
    let cfg = config();
    let hosts: Vec<String> = (0..16).map(|i| format!("tenant{}.example", i)).collect();
    let outs: Vec<OutboundRequest<String>> = hosts
        .iter()
        .enumerate()
        .map(|(i, h)| {
            let target = format!("/r/{}", i);
            let req = request("GET", Some(&target), vec![header("X-Smuggle-Host", h)]);
            forward(&cfg, req).unwrap()
        })
        .collect();
    for (i, out) in outs.iter().enumerate() {
        assert_eq!(header_pairs(out), vec![("host".to_string(), hosts[i].as_bytes().to_vec())]);
        assert_eq!(out.uri.path_and_query, format!("/r/{}", i));
        assert_eq!(out.uri.authority, "127.0.0.1:9000");
    }
}

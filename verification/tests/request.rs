use rockscrew::request::{build_request, decode_credential, port_decimal, recover_credential};

#[test]
fn plain_request_exact() {
    let r = build_request("example.com", 8080, None);
    assert_eq!(r.as_str(), "CONNECT example.com:8080 HTTP/1.0\r\n\r\n");
}

#[test]
fn plain_request_port_zero() {
    let r = build_request("h", 0, None);
    assert_eq!(r.as_str(), "CONNECT h:0 HTTP/1.0\r\n\r\n");
}

#[test]
fn plain_request_port_max() {
    let r = build_request("proxy.test", 65535, None);
    assert_eq!(r.as_str(), "CONNECT proxy.test:65535 HTTP/1.0\r\n\r\n");
}

#[test]
fn authorized_request_exact() {
    let cred = b"user:pass".to_vec();
    let r = build_request("example.com", 443, Some(&cred));
    assert_eq!(
        r.as_str(),
        "CONNECT example.com:443 HTTP/1.0\r\nProxy-Authorization: Basic dXNlcjpwYXNz\r\n\r\n"
    );
}

#[test]
fn authorized_request_keeps_plain_prefix() {
    let cred = b"abc".to_vec();
    let plain = build_request("example.com", 443, None);
    let authorized = build_request("example.com", 443, Some(&cred));
    let prefix = &plain.as_str()[..plain.len() - 2];
    assert!(authorized.as_str().starts_with(prefix));
    assert!(authorized.as_str().ends_with("\r\n\r\n"));
}

#[test]
fn credential_round_trip() {
    let r = decode_credential("dXNlcjpwYXNz");
    assert_eq!(r, Some(b"user:pass".to_vec()));
}

#[test]
fn credential_round_trip_binary() {
    // base64 of [0, 255, 16] with the standard padded alphabet
    let r = decode_credential("AP8Q");
    assert_eq!(r, Some(vec![0u8, 255u8, 16u8]));
}

#[test]
fn empty_credential_round_trip() {
    let cred = Vec::new();
    let r = build_request("example.com", 443, Some(&cred));
    assert_eq!(
        r.as_str(),
        "CONNECT example.com:443 HTTP/1.0\r\nProxy-Authorization: Basic \r\n\r\n"
    );
    assert_eq!(decode_credential(""), Some(Vec::new()));
}

#[test]
fn whole_request_round_trip() {
    let cred = b"user:pass".to_vec();
    let req = build_request("example.com", 443, Some(&cred));
    assert_eq!(recover_credential(req.as_str(), "example.com", 443), Some(cred));
}

#[test]
fn whole_request_round_trip_binary() {
    let cred = vec![0u8, 1, 2, 254, 255];
    let req = build_request("h", 1, Some(&cred));
    assert_eq!(recover_credential(req.as_str(), "h", 1), Some(cred));
}

#[test]
fn whole_request_round_trip_empty_credential() {
    let cred = Vec::new();
    let req = build_request("proxy.test", 65535, Some(&cred));
    assert_eq!(recover_credential(req.as_str(), "proxy.test", 65535), Some(cred));
}

#[test]
fn recover_rejects_short_request() {
    assert_eq!(recover_credential("CONNECT h:1 HTTP/1.0\r\n\r\n", "h", 1), None);
}

#[test]
fn rejects_garbage_credential() {
    assert_eq!(decode_credential("not base64!!"), None);
}

#[test]
fn port_decimal_exact() {
    assert_eq!(port_decimal(0).as_str(), "0");
    assert_eq!(port_decimal(7).as_str(), "7");
    assert_eq!(port_decimal(80).as_str(), "80");
    assert_eq!(port_decimal(1080).as_str(), "1080");
    assert_eq!(port_decimal(65535).as_str(), "65535");
}

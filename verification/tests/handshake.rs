use actix_send::handshake::{
    asks_connection_upgrade, handshake, handshake_with_protocols, select_protocol,
    HandshakeError, HandshakeRequest,
};

fn request(method: &str, headers: &[(&str, &str)]) -> HandshakeRequest {
    let first = |name: &str| {
        headers
            .iter()
            .find(|(n, _)| n.eq_ignore_ascii_case(name))
            .map(|(_, v)| v.as_bytes().to_vec())
    };
    HandshakeRequest {
        method: method.as_bytes().to_vec(),
        upgrade: first("upgrade"),
        connection: headers
            .iter()
            .filter(|(n, _)| n.eq_ignore_ascii_case("connection"))
            .map(|(_, v)| v.as_bytes().to_vec())
            .collect(),
        version: first("sec-websocket-version"),
        key: first("sec-websocket-key"),
        protocol: first("sec-websocket-protocol"),
    }
}

const UPGRADE: (&str, &str) = ("upgrade", "websocket");
const CONNECTION: (&str, &str) = ("connection", "upgrade");
const VERSION: (&str, &str) = ("sec-websocket-version", "13");
const KEY: (&str, &str) = ("sec-websocket-key", "13");

#[test]
fn test_handshake() {
    let req = request("POST", &[]);
    assert_eq!(HandshakeError::GetMethodRequired, handshake(&req).err().unwrap());

    let req = request("GET", &[]);
    assert_eq!(HandshakeError::NoWebsocketUpgrade, handshake(&req).err().unwrap());

    let req = request("GET", &[("upgrade", "test")]);
    assert_eq!(HandshakeError::NoWebsocketUpgrade, handshake(&req).err().unwrap());

    let req = request("GET", &[UPGRADE]);
    assert_eq!(HandshakeError::NoConnectionUpgrade, handshake(&req).err().unwrap());

    let req = request("GET", &[UPGRADE, CONNECTION]);
    assert_eq!(HandshakeError::NoVersionHeader, handshake(&req).err().unwrap());

    let req = request("GET", &[UPGRADE, CONNECTION, ("sec-websocket-version", "5")]);
    assert_eq!(HandshakeError::UnsupportedVersion, handshake(&req).err().unwrap());

    let req = request("GET", &[UPGRADE, CONNECTION, VERSION]);
    assert_eq!(HandshakeError::BadWebsocketKey, handshake(&req).err().unwrap());

    let req = request("GET", &[UPGRADE, CONNECTION, VERSION, KEY]);
    assert_eq!(101, handshake(&req).ok().unwrap().status);

    let req = request(
        "GET",
        &[UPGRADE, CONNECTION, VERSION, KEY, ("sec-websocket-protocol", "graphql")],
    );
    let protocols = ["graphql"];
    assert_eq!(101, handshake_with_protocols(&req, &protocols).ok().unwrap().status);
    assert_eq!(
        Some(b"graphql".to_vec()),
        handshake_with_protocols(&req, &protocols).ok().unwrap().protocol
    );

    let req = request(
        "GET",
        &[UPGRADE, CONNECTION, VERSION, KEY, ("sec-websocket-protocol", "p1, p2, p3")],
    );
    let protocols = vec!["p3", "p2"];
    assert_eq!(101, handshake_with_protocols(&req, &protocols).ok().unwrap().status);
    assert_eq!(
        Some(b"p2".to_vec()),
        handshake_with_protocols(&req, &protocols).ok().unwrap().protocol
    );

    let req = request(
        "GET",
        &[UPGRADE, CONNECTION, VERSION, KEY, ("sec-websocket-protocol", "p1,p2,p3")],
    );
    let protocols = vec!["p3", "p2"];
    assert_eq!(101, handshake_with_protocols(&req, &protocols).ok().unwrap().status);
    assert_eq!(
        Some(b"p2".to_vec()),
        handshake_with_protocols(&req, &protocols).ok().unwrap().protocol
    );
}

#[test]
fn handshake_accept_key_is_rfc_example() {
    // RFC 6455, section 1.3.
    let req = request(
        "GET",
        &[UPGRADE, CONNECTION, VERSION, ("sec-websocket-key", "dGhlIHNhbXBsZSBub25jZQ==")],
    );
    let resp = handshake(&req).ok().unwrap();
    assert_eq!(resp.accept, b"s3pPLMBiTxaQ9kYGzzhZRbK+xOo=".to_vec());
    assert_eq!(resp.upgrade, b"websocket".to_vec());
    assert_eq!(resp.transfer_encoding, b"chunked".to_vec());
    assert_eq!(resp.protocol, None);
}

#[test]
fn handshake_upgrade_header_case_and_other_versions() {
    let req = request(
        "GET",
        &[("upgrade", "WebSocket"), ("connection", "keep-alive, Upgrade"), ("sec-websocket-version", "8"), KEY],
    );
    assert!(handshake(&req).is_ok());
    let req = request("GET", &[UPGRADE, CONNECTION, ("sec-websocket-version", "7"), KEY]);
    assert!(handshake(&req).is_ok());
    let req = request("GET", &[UPGRADE, ("connection", "close, upgrade"), VERSION, KEY]);
    assert_eq!(HandshakeError::NoConnectionUpgrade, handshake(&req).err().unwrap());
    let req = request("GET", &[UPGRADE, CONNECTION, ("sec-websocket-version", "13 "), KEY]);
    assert_eq!(HandshakeError::UnsupportedVersion, handshake(&req).err().unwrap());
}

#[test]
fn protocol_selection_follows_client_order() {
    let header = Some(b" p2 ,\tp3".to_vec());
    assert_eq!(select_protocol(&header, &["p3", "p2"]), Some(b"p2".to_vec()));
    assert_eq!(select_protocol(&header, &["p4"]), None);
    assert_eq!(select_protocol(&None, &["p2"]), None);
    let non_text = Some(vec![b'p', 0x80]);
    assert_eq!(select_protocol(&non_text, &["p\u{80}"]), None);
    assert_eq!(select_protocol(&Some(b"a,,b".to_vec()), &[""]), Some(Vec::new()));
}

#[test]
fn connection_header_options() {
    let values = |vs: &[&[u8]]| vs.iter().map(|v| v.to_vec()).collect::<Vec<Vec<u8>>>();
    assert!(asks_connection_upgrade(&values(&[b"keep-alive, Upgrade"])));
    assert!(asks_connection_upgrade(&values(&[b"keep-alive", b" UPGRADE "])));
    assert!(!asks_connection_upgrade(&values(&[b"keep-alive"])));
    assert!(!asks_connection_upgrade(&values(&[])));
    // "close" anywhere wins over "upgrade".
    assert!(!asks_connection_upgrade(&values(&[b"upgrade", b"Close"])));
    assert!(!asks_connection_upgrade(&values(&[b"upgrade,close"])));
    // A value that does not read as text is skipped.
    assert!(!asks_connection_upgrade(&values(&[b"upgrade\x80"])));
    assert!(asks_connection_upgrade(&values(&[b"close\x80", b"upgrade"])));
    // Options are compared whole, not by their parts.
    assert!(!asks_connection_upgrade(&values(&[b"upgrades"])));
}

#[test]
fn handshake_is_the_handshake_without_protocols() {
    let req = request(
        "GET",
        &[UPGRADE, CONNECTION, VERSION, KEY, ("sec-websocket-protocol", "graphql")],
    );
    let a = handshake(&req).unwrap();
    let b = handshake_with_protocols(&req, &[]).unwrap();
    assert_eq!(a.status, 101);
    assert_eq!(a.upgrade, b"websocket".to_vec());
    assert_eq!(a.transfer_encoding, b"chunked".to_vec());
    assert_eq!(a.upgrade, b.upgrade);
    assert_eq!(a.transfer_encoding, b.transfer_encoding);
    assert_eq!(a.accept, b.accept);
    assert_eq!(a.protocol, None);
    assert_eq!(b.protocol, None);
}

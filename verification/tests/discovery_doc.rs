use base64::Engine;
use wt_echo::discovery::{config_document, discovery_port};
use wt_echo::session::{Action, Event, Session};

#[test]
fn document_for_zero_digest_is_exact() {
    let digest = vec![0u8; 32];
    let doc = config_document(&digest, 4433);
    let expected = format!(
        "{{\"cert_digest_base64\":\"{}{}\",\"default_port\":4433}}",
        "A".repeat(43),
        "="
    );
    assert_eq!(doc, expected.into_bytes());
}

#[test]
fn document_encodes_digest_with_real_base64() {
    let doc = config_document(&b"hello".to_vec(), 1);
    assert_eq!(
        doc,
        b"{\"cert_digest_base64\":\"aGVsbG8=\",\"default_port\":1}".to_vec()
    );
}

#[test]
fn document_port_rendering_covers_edges() {
    let digest = vec![1u8];
    for (port, text) in [(0u16, "0"), (8u16, "8"), (8080u16, "8080"), (65535u16, "65535")] {
        let doc = config_document(&digest, port);
        let body = String::from_utf8(doc).unwrap();
        assert!(body.ends_with(&format!("\"default_port\":{}}}", text)), "body {}", body);
    }
}

#[test]
fn document_is_well_formed_json() {
    let digest: Vec<u8> = (0u8..32).collect();
    let doc = config_document(&digest, 4433);
    let value: serde_json::Value = serde_json::from_slice(&doc).unwrap();
    let field = value.get("cert_digest_base64").unwrap().as_str().unwrap();
    assert_eq!(field, base64::prelude::BASE64_STANDARD.encode(&digest));
    assert_eq!(value.get("default_port").unwrap().as_u64().unwrap(), 4433);
}

#[test]
fn startup_publishes_config_then_serves() {
    // The service comes up with a 32-byte certificate hash and an
    // OS-assigned, nonzero transport port, publishes both, and a peer that
    // read the document can then connect and be served.
    let digest: Vec<u8> = (100u8..132).collect();
    let advertised_port: u16 = 50443;
    assert_ne!(advertised_port, 0);

    let doc = config_document(&digest, advertised_port);
    let value: serde_json::Value = serde_json::from_slice(&doc).unwrap();
    let digest_field = value.get("cert_digest_base64").unwrap().as_str().unwrap();
    assert!(!digest_field.is_empty());
    assert_eq!(value.get("default_port").unwrap().as_u64().unwrap(), advertised_port as u64);

    let mut peer_session = Session::with_random_id();
    let a = peer_session.handle_event(Event::BiMessage { payload: b"hi".to_vec() });
    match a {
        Action::ReplyBi(p) => assert_eq!(p, b"ACKhi".to_vec()),
        other => panic!("expected a reply on the bidirectional stream, got {:?}", other),
    }
}

#[test]
fn discovery_port_is_well_known() {
    assert_eq!(discovery_port(), 8080);
}

use lauren_chatbot::config::AppConfig;
use lauren_chatbot::ws::gateway::{gateway_step, GatewayAction, GatewayEvent};
use lauren_chatbot::ws::routes::{requested_subject, WsTokenResponse};
use lauren_chatbot::ws::token_service::{WsTokenPayload, WsTokenService, PUBLIC_SUBJECT, TOKEN_TTL_SECS};

fn payload_json(sub: &str, iat: u64, exp: u64) -> Vec<u8> {
    format!("{{\"sub\":\"{}\",\"iat\":{},\"exp\":{}}}", sub, iat, exp).into_bytes()
}

#[test]
fn test_create_and_verify_token() {
    let service = WsTokenService::with_secret("test-secret");
    let payload = WsTokenPayload::issue("alice", 1_000, 120);
    let token = service.seal(&payload_json(&payload.sub, payload.iat, payload.exp));
    let opened = service.open(&token).unwrap();
    assert_eq!(opened, payload_json("alice", 1_000, 1_120));
    assert_eq!(payload.subject_if_live(1_000), Some("alice".to_string()));
}

#[test]
fn test_verify_invalid_token() {
    let service = WsTokenService::with_secret("test-secret");
    assert!(service.open("invalid-token").is_none());
}

#[test]
fn test_verify_empty_token() {
    let service = WsTokenService::with_secret("test-secret");
    assert!(service.open("").is_none());
}

#[test]
fn test_verify_expired_token() {
    let payload = WsTokenPayload::issue("alice", 5_000, 0);
    assert_eq!(payload.subject_if_live(5_000), Some("alice".to_string()));
    assert_eq!(payload.subject_if_live(5_001), None);
}

#[test]
fn test_verify_wrong_secret() {
    let service1 = WsTokenService::with_secret("secret1");
    let service2 = WsTokenService::with_secret("secret2");
    let token = service1.seal(&payload_json("alice", 0, 120));
    assert!(service2.open(&token).is_none());
    assert!(service1.open(&token).is_some());
}

#[test]
fn test_public_token() {
    let service = WsTokenService::with_secret("test-secret");
    let payload = WsTokenPayload::issue(PUBLIC_SUBJECT, 10, TOKEN_TTL_SECS);
    let token = service.seal(&payload_json(&payload.sub, payload.iat, payload.exp));
    assert_eq!(service.open(&token), Some(payload_json("__public__", 10, 130)));
    assert_eq!(payload.subject_if_live(130), Some("__public__".to_string()));
}

#[test]
fn test_token_with_different_ttls() {
    let p60 = WsTokenPayload::issue("alice", 100, 60);
    let p3600 = WsTokenPayload::issue("alice", 100, 3600);
    assert!(p60.subject_if_live(160).is_some());
    assert!(p3600.subject_if_live(3700).is_some());
    assert!(p60.subject_if_live(161).is_none());
}

#[test]
fn token_layout_is_base64_dot_hex_signature() {
    let service = WsTokenService::with_secret("test-secret");
    let token = service.seal(b"hello");
    let (enc, sig) = token.split_once('.').unwrap();
    assert_eq!(enc, "aGVsbG8");
    assert_eq!(sig.len(), 64);
    assert!(sig.chars().all(|c| c.is_ascii_hexdigit() && !c.is_ascii_uppercase()));
}

#[test]
fn tampered_tokens_do_not_open() {
    let service = WsTokenService::with_secret("test-secret");
    let token = service.seal(b"hello");
    let (_, sig) = token.split_once('.').unwrap();
    let forged = format!("aGVsbG9v.{}", sig);
    assert!(service.open(&forged).is_none());
    let no_sig = "aGVsbG8.".to_string();
    assert!(service.open(&no_sig).is_none());
}

#[test]
fn service_from_config_opens_its_own_tokens() {
    let service = WsTokenService::new(&AppConfig::test_config());
    let token = service.seal(b"{}");
    assert_eq!(service.open(&token), Some(b"{}".to_vec()));
    assert!(WsTokenService::with_secret("other").open(&token).is_none());
}

#[test]
fn token_response_carries_the_standard_lifetime() {
    let resp = WsTokenResponse::for_token("abc123".to_string());
    assert_eq!(resp.token, "abc123");
    assert_eq!(resp.ttl_seconds, 120);
}

#[test]
fn test_issue_token_missing_user_id() {
    assert_eq!(requested_subject(None), None);
    assert_eq!(requested_subject(Some(String::new())), None);
    assert_eq!(requested_subject(Some("alice".into())), Some("alice".to_string()));
}

#[test]
fn gateway_forwards_signals_and_stops_on_close() {
    assert!(matches!(gateway_step(GatewayEvent::Signal("{}".into())), GatewayAction::Forward(s) if s == "{}"));
    assert!(matches!(gateway_step(GatewayEvent::Lagged), GatewayAction::Continue));
    assert!(matches!(gateway_step(GatewayEvent::SignalUnencodable), GatewayAction::Continue));
    assert!(matches!(gateway_step(GatewayEvent::ClientPing), GatewayAction::Continue));
    assert!(matches!(gateway_step(GatewayEvent::ClientClose), GatewayAction::Stop));
    assert!(matches!(gateway_step(GatewayEvent::BusClosed), GatewayAction::Stop));
    assert!(matches!(gateway_step(GatewayEvent::SendFailed), GatewayAction::Stop));
    assert!(matches!(gateway_step(GatewayEvent::ClientOther), GatewayAction::Stop));
}

#[test]
fn signed_but_non_canonical_base64_does_not_open() {
    let service = WsTokenService::with_secret("test-secret");
    let signer = lauren_chatbot::crypto::service::CryptoService::with_secret("test-secret");
    let padded = "aGVsbG8=";
    let token = format!("{}.{}", padded, signer.sign(padded.as_bytes()));
    assert!(service.open(&token).is_none());
    let canonical = "aGVsbG8";
    let token = format!("{}.{}", canonical, signer.sign(canonical.as_bytes()));
    assert_eq!(service.open(&token), Some(b"hello".to_vec()));
    let dotted = format!("{}.{}.extra", canonical, signer.sign(canonical.as_bytes()));
    assert!(service.open(&dotted).is_none());
}

#[test]
fn session_forwards_signals_in_order_until_close() {
    let events = vec![
        GatewayEvent::Signal("{\"a\":1}".to_string()),
        GatewayEvent::ClientPing,
        GatewayEvent::Lagged,
        GatewayEvent::Signal("{\"b\":2}".to_string()),
        GatewayEvent::SignalUnencodable,
        GatewayEvent::ClientClose,
        GatewayEvent::Signal("{\"c\":3}".to_string()),
    ];
    let mut sent: Vec<String> = Vec::new();
    for event in events {
        match gateway_step(event) {
            GatewayAction::Forward(text) => sent.push(text),
            GatewayAction::Continue => continue,
            GatewayAction::Stop => break,
        }
    }
    assert_eq!(sent, vec!["{\"a\":1}".to_string(), "{\"b\":2}".to_string()]);
}

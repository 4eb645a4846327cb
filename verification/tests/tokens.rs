use chat::jwt::{checking_outcome, signing_outcome, token_policy, JWT_DURATION};
use chat::middleware::verify_token;
use chat::{DecodingKey, EncodingKey, ErrorKind, Params};
use jwt_simple::prelude::{Ed25519KeyPair, EdDSAPublicKeyLike, NoCustomClaims, VerificationOptions};
use serde_json::Value;

fn keys() -> (EncodingKey, DecodingKey) {
    let pair = Ed25519KeyPair::generate();
    let ek = EncodingKey::load(&pair.to_pem()).unwrap();
    let dk = DecodingKey::load(&pair.public_key().to_pem()).unwrap();
    (ek, dk)
}

fn john() -> String {
    let mut m = serde_json::Map::new();
    m.insert("id".to_string(), Value::from(1));
    m.insert("ws_id".to_string(), Value::from(0));
    m.insert("fullname".to_string(), Value::from("John Doe"));
    m.insert("email".to_string(), Value::from("john.doe@example.com"));
    serde_json::to_string(&m).unwrap()
}

fn json(text: &str) -> Value {
    serde_json::from_str(text).unwrap()
}

#[test]
fn jwt_sign_and_verify_should_work() {
    let (ek, dk) = keys();
    let user = john();
    let token = ek.sign(&user).unwrap();
    let decoded = dk.verify(&token).unwrap();
    assert_eq!(json(&user), json(&decoded));
}

#[test]
fn tokens_follow_the_policy() {
    let p = token_policy();
    assert_eq!(p.issuer, "chat_server");
    assert_eq!(p.audience, "chat_web");
    assert_eq!(p.valid_secs, 7 * 24 * 60 * 60);
    let pair = Ed25519KeyPair::generate();
    let ek = EncodingKey::load(&pair.to_pem()).unwrap();
    let token = ek.sign(&john()).unwrap();
    assert!(!token.is_empty());
    let claims = pair
        .public_key()
        .verify_token::<NoCustomClaims>(&token, Some(VerificationOptions::default()))
        .unwrap();
    assert_eq!(claims.issuer.as_deref(), Some("chat_server"));
    assert!(claims.audiences.unwrap().contains(&["chat_web".to_string()].into_iter().collect()));
    let lifetime = claims.expires_at.unwrap().as_secs() - claims.issued_at.unwrap().as_secs();
    assert_eq!(lifetime, JWT_DURATION);
}

#[test]
fn claims_that_are_no_object_are_refused() {
    let (ek, _) = keys();
    assert_eq!(ek.sign("[1, 2]").unwrap_err().kind(), ErrorKind::Jwt);
}

#[test]
fn token_of_another_key_is_refused() {
    let (ek, _) = keys();
    let (_, other) = keys();
    let token = ek.sign(&john()).unwrap();
    let e = other.verify(&token).unwrap_err();
    assert_eq!(e.kind(), ErrorKind::Jwt);
    assert_eq!(e.status_code(), 403);
}

#[test]
fn garbage_token_is_refused() {
    let (_, dk) = keys();
    assert_eq!(dk.verify("invalid_token").unwrap_err().kind(), ErrorKind::Jwt);
}

#[test]
fn bad_pem_is_refused() {
    assert_eq!(EncodingKey::load("nope").unwrap_err().kind(), ErrorKind::Jwt);
    assert_eq!(DecodingKey::load("nope").unwrap_err().kind(), ErrorKind::Jwt);
}

#[test]
fn middleware_accepts_header_or_query_token() {
    let (ek, dk) = keys();
    let token = ek.sign(&john()).unwrap();
    let none = Params { access_token: None };
    let claims = verify_token(&dk, Some(token.clone()), none.clone()).unwrap();
    assert_eq!(json(&claims), json(&john()));
    let claims = verify_token(&dk, None, Params { access_token: Some(token.clone()) }).unwrap();
    assert_eq!(json(&claims), json(&john()));
    // The header's token is the one checked, whatever the query holds.
    let bad = verify_token(&dk, Some("invalid_token".to_string()), Params { access_token: Some(token) });
    assert_eq!(bad.unwrap_err().status, 403);
    let missing = verify_token(&dk, None, none.clone()).unwrap_err();
    assert_eq!(missing.status, 400);
    assert_eq!(missing.message, "Missing token");
    let bad = verify_token(&dk, Some("invalid_token".to_string()), none).unwrap_err();
    assert_eq!(bad.status, 403);
    assert!(bad.message.starts_with("Invalid token: JWT error: "));
    let bad = verify_token(&dk, None, Params { access_token: Some("invalid".to_string()) }).unwrap_err();
    assert_eq!(bad.status, 403);
}

#[test]
fn outcomes_of_signing_and_checking() {
    assert_eq!(signing_outcome(Ok("t".to_string())).unwrap(), "t");
    let e = signing_outcome(Err("boom".to_string())).unwrap_err();
    assert_eq!(e.message(), "JWT error: boom");
    assert_eq!(checking_outcome(Ok("{}".to_string())).unwrap(), "{}");
    assert_eq!(checking_outcome(Err("expired".to_string())).unwrap_err().kind(), ErrorKind::Jwt);
}

#[test]
fn registered_claim_names_are_not_custom_claims() {
    let (ek, dk) = keys();
    let token = ek.sign(r#"{"sub":"someone","id":1}"#).unwrap();
    assert_eq!(json(&dk.verify(&token).unwrap()), json(r#"{"id":1}"#));
    let token = ek.sign(r#"{"iss":"someone_else","id":1}"#).unwrap();
    assert_eq!(dk.verify(&token).unwrap_err().kind(), ErrorKind::Jwt);
}

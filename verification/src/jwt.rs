use jwt_simple::prelude::{
    Claims, Duration, EdDSAKeyPairLike, EdDSAPublicKeyLike, Ed25519KeyPair, Ed25519PublicKey,
    VerificationOptions,
};
use std::collections::HashSet;
use vstd::prelude::*;
use crate::error::{AppError, ErrorKind};

verus! {

#[verifier::external_type_specification]
#[verifier::external_body]
pub struct ExEd25519KeyPair(Ed25519KeyPair);

/// How long a token stays valid: seven days, in seconds.
pub const JWT_DURATION: u64 = 60 * 60 * 24 * 7;

/// Whether a PEM text holds an Ed25519 key pair.
pub uninterp spec fn key_pair_pem_ok(pem: Seq<char>) -> bool;

/// The Ed25519 public key that a PEM text holds, as its 32 bytes; absent
/// where the text holds none.
pub uninterp spec fn public_key_pem(pem: Seq<char>) -> Option<Seq<u8>>;

/// Whether a token is three parts joined by dots whose last, read as
/// unpadded base64url, is an Ed25519 signature of the text before the last
/// dot under the public key `key`, as `ed25519_compact` checks it.
pub uninterp spec fn ed25519_signature_ok(key: Seq<u8>, token: Seq<char>) -> bool;

/// Calls `jwt_simple::Ed25519KeyPair::from_pem`; whether it accepts the text
/// is a function of the text alone.
#[verifier::external_body]
fn key_pair_from_pem(pem: &str) -> (r: Result<Ed25519KeyPair, String>)
    ensures
        r is Ok <==> key_pair_pem_ok(pem@),
{
    Ed25519KeyPair::from_pem(pem).map_err(|e| e.to_string())
}

/// Calls `jwt_simple::Ed25519PublicKey::from_pem` and gives the key's bytes
/// (`to_bytes`); the key is a function of the text alone.
#[verifier::external_body]
fn public_key_from_pem(pem: &str) -> (r: Result<Vec<u8>, String>)
    ensures
        r is Ok <==> public_key_pem(pem@) is Some,
        r matches Ok(k) ==> public_key_pem(pem@) == Some(k@),
{
    Ed25519PublicKey::from_pem(pem).map(|k| k.to_bytes()).map_err(|e| e.to_string())
}

/// The members of the JSON object that serde_json reads from a text, each
/// name with its value as serde_json writes it back; absent where the text
/// does not hold a JSON object.
pub uninterp spec fn json_object(text: Seq<char>) -> Option<Map<Seq<char>, Seq<char>>>;

/// What jwt_simple reads from the payload (the middle part) of a token,
/// without looking at its signature or the clock: the custom claims, as
/// members of a JSON object; the issuer; the audiences it names; and the
/// times it was issued and expires at, in seconds since the epoch. Absent
/// where the payload does not read as claims.
pub uninterp spec fn token_claims(token: Seq<char>) -> Option<(Map<Seq<char>, Seq<char>>, Option<Seq<char>>, Set<Seq<char>>, Option<int>, Option<int>)>;

/// The names of the claims that jwt_simple reads into fields of its own
/// rather than into the custom claims.
pub open spec fn registered_claim_names() -> Set<Seq<char>> {
    set!["iat"@, "exp"@, "nbf"@, "iss"@, "sub"@, "aud"@, "jti"@, "nonce"@]
}

/// Reads the JSON object that `claims` holds with `serde_json::from_str`,
/// stamps it with `jwt_simple::Claims::with_custom_claims` (the current
/// time, and an expiry `valid_secs` seconds later), sets the issuer and the
/// audience, and signs the result with `EdDSAKeyPairLike::sign`. A text that
/// holds no JSON object is refused, and any other is signed: the claims are
/// written out with serde_json and base64, and Ed25519 signing does not
/// fail. A token is three non-empty parts joined by dots. Where no member of the object is named like a registered claim,
/// the payload reads back as those members, the given issuer and audience,
/// and an expiry `valid_secs` seconds after the issue time; where one is,
/// the payload does not read back as claims, or reads that member as a
/// registered claim. The signing noise and the clock make the token itself
/// random, so which token comes back is left unsaid.
#[verifier::external_body]
fn sign_token(key: &Ed25519KeyPair, claims: &str, issuer: &str, audience: &str, valid_secs: u64) -> (r: Result<String, String>)
    requires
        valid_secs <= JWT_DURATION,
    ensures
        r is Ok <==> json_object(claims@) is Some,
        r matches Ok(t) ==> t@.len() > 0,
        r matches Ok(t) ==> (json_object(claims@)->0.dom().disjoint(registered_claim_names()) ==> token_claims(t@) is Some),
        r matches Ok(t) ==> (token_claims(t@) matches Some(p) ==>
            p.0 == json_object(claims@)->0.remove_keys(registered_claim_names())
            && p.1 == Some(issuer@) && p.2 == set![audience@]
            && p.3 is Some && p.4 == Some(p.3->0 + valid_secs)),
{
    let custom: serde_json::Map<String, serde_json::Value> = serde_json::from_str(claims).map_err(|e| e.to_string())?;
    let claims = Claims::with_custom_claims(custom, Duration::from_secs(valid_secs));
    key.sign(claims.with_issuer(issuer).with_audience(audience)).map_err(|e| e.to_string())
}

/// Makes an `Ed25519PublicKey` from the key's bytes with `from_bytes`
/// (which checks only their length) and calls
/// `EdDSAPublicKeyLike::verify_token` with `VerificationOptions` that allow
/// only the given issuer and audience (the other options at their defaults),
/// then writes the custom claims back as JSON text with
/// `serde_json::to_string`. A token it accepts carries a signature that
/// checks under the key, and reads as claims whose custom part is the object
/// returned, whose issuer is `issuer` and whose audiences include
/// `audience`. Acceptance also depends on the clock (expiry), which is left
/// unsaid.
#[verifier::external_body]
fn verify_claims(key: &[u8], token: &str, issuer: &str, audience: &str) -> (r: Result<String, String>)
    ensures
        r matches Ok(c) ==> (token_claims(token@) matches Some(p) && json_object(c@) == Some(p.0)
            && p.1 == Some(issuer@) && p.2.contains(audience@)),
        r matches Ok(c) ==> ed25519_signature_ok(key@, token@),
{
    let key = Ed25519PublicKey::from_bytes(key).map_err(|e| e.to_string())?;
    let options = VerificationOptions {
        allowed_audiences: Some(HashSet::from([audience.to_string()])),
        allowed_issuers: Some(HashSet::from([issuer.to_string()])),
        ..Default::default()
    };
    let claims = key.verify_token::<serde_json::Map<String, serde_json::Value>>(token, Some(options));
    serde_json::to_string(&claims.map_err(|e| e.to_string())?.custom).map_err(|e| e.to_string())
}

/// Who issues tokens, for whom, and for how long they stay valid.
#[derive(Debug)]
pub struct TokenPolicy {
    pub issuer: String,
    pub audience: String,
    pub valid_secs: u64,
}

/// The policy of this server's tokens: issued by `chat_server` for
/// `chat_web`, valid for [`JWT_DURATION`] seconds.
pub fn token_policy() -> (p: TokenPolicy)
    ensures
        p.issuer@ == "chat_server"@,
        p.audience@ == "chat_web"@,
        p.valid_secs == JWT_DURATION,
{
    TokenPolicy {
        issuer: String::from_str("chat_server"),
        audience: String::from_str("chat_web"),
        valid_secs: JWT_DURATION,
    }
}

/// Whether `token` is one that signing `claims` under [`token_policy`] may
/// give: a non-empty text; `claims` holds a JSON object; where no member of
/// it is named like a registered claim, the token reads back as claims; and
/// where it reads back, its custom claims are the object's other members,
/// it was issued by `chat_server` for `chat_web` alone, and it expires
/// [`JWT_DURATION`] seconds after it was issued.
pub open spec fn signed_token(claims: Seq<char>, token: Seq<char>) -> bool {
    &&& token.len() > 0
    &&& json_object(claims) matches Some(m)
    &&& m.dom().disjoint(registered_claim_names()) ==> token_claims(token) is Some
    &&& token_claims(token) matches Some(p) ==> {
        &&& p.0 == m.remove_keys(registered_claim_names())
        &&& p.1 == Some("chat_server"@)
        &&& p.2 == set!["chat_web"@]
        &&& p.3 is Some
        &&& p.4 == Some(p.3->0 + JWT_DURATION)
    }
}

/// Whether `claims` is what checking `token` under [`token_policy`] may give
/// back: the token reads as claims issued by `chat_server` for an audience
/// that includes `chat_web`, and `claims` holds its custom claims.
pub open spec fn accepted_claims(token: Seq<char>, claims: Seq<char>) -> bool {
    token_claims(token) matches Some(p) && json_object(claims) == Some(p.0)
        && p.1 == Some("chat_server"@) && p.2.contains("chat_web"@)
}

/// What a token was signed with is what checking it gives back: where the
/// claims signed name no registered claim, the claims that a check of the
/// token accepts are the same JSON object.
pub proof fn lemma_checked_claims_are_signed_claims(claims: Seq<char>, token: Seq<char>, checked: Seq<char>)
    requires
        signed_token(claims, token),
        json_object(claims)->0.dom().disjoint(registered_claim_names()),
        accepted_claims(token, checked),
    ensures
        json_object(checked) == json_object(claims),
{
    let m = json_object(claims)->0;
    assert(m.remove_keys(registered_claim_names()) =~= m);
}

/// The key that signs tokens.
#[derive(Debug)]
pub struct EncodingKey {
    key: Ed25519KeyPair,
}

/// The key that checks tokens.
#[derive(Debug)]
pub struct DecodingKey {
    key: Vec<u8>,
}

/// Answers the outcome of signing: the token, or a JWT error with the
/// signer's explanation.
pub fn signing_outcome(signed: Result<String, String>) -> (r: Result<String, AppError>)
    ensures
        signed is Ok <==> r is Ok,
        signed matches Ok(t) ==> (r matches Ok(u) && u@ == t@),
        signed matches Err(m) ==> (r matches Err(e) && e@ == (ErrorKind::Jwt, m@)),
{
    match signed {
        Ok(token) => Ok(token),
        Err(m) => Err(AppError::Jwt(m)),
    }
}

/// Answers the outcome of checking a token: the claims it carries, or a JWT
/// error with the checker's explanation.
pub fn checking_outcome(checked: Result<String, String>) -> (r: Result<String, AppError>)
    ensures
        checked is Ok <==> r is Ok,
        checked matches Ok(c) ==> (r matches Ok(d) && d@ == c@),
        checked matches Err(m) ==> (r matches Err(e) && e@ == (ErrorKind::Jwt, m@)),
{
    match checked {
        Ok(claims) => Ok(claims),
        Err(m) => Err(AppError::Jwt(m)),
    }
}

impl EncodingKey {
    /// Reads the signing key from a PEM text.
    pub fn load(pem: &str) -> (r: Result<EncodingKey, AppError>)
        ensures
            r is Ok <==> key_pair_pem_ok(pem@),
            r matches Err(e) ==> e@.0 == ErrorKind::Jwt,
    {
        match key_pair_from_pem(pem) {
            Ok(key) => Ok(EncodingKey { key }),
            Err(m) => Err(AppError::Jwt(m)),
        }
    }

    /// Signs a token that carries the claims about a user (a JSON object,
    /// as text) under [`token_policy`]; a text that holds no JSON object is
    /// refused. The token holds the clock and random signing noise, so which
    /// token comes back is not stated; [`signing_outcome`] says how the
    /// signer's answer is passed on.
    pub fn sign(&self, claims: &str) -> (r: Result<String, AppError>)
        ensures
            r is Ok <==> json_object(claims@) is Some,
            r matches Ok(t) ==> signed_token(claims@, t@),
            r matches Err(e) ==> e@.0 == ErrorKind::Jwt,
    {
        let p = token_policy();
        signing_outcome(sign_token(&self.key, claims, p.issuer.as_str(), p.audience.as_str(), p.valid_secs))
    }
}

impl DecodingKey {
    /// The bytes of the public key that checks tokens.
    pub closed spec fn public_key(&self) -> Seq<u8> {
        self.key@
    }

    /// Reads the checking key from a PEM text.
    pub fn load(pem: &str) -> (r: Result<DecodingKey, AppError>)
        ensures
            r is Ok <==> public_key_pem(pem@) is Some,
            r matches Ok(k) ==> public_key_pem(pem@) == Some(k.public_key()),
            r matches Err(e) ==> e@.0 == ErrorKind::Jwt,
    {
        match public_key_from_pem(pem) {
            Ok(key) => Ok(DecodingKey { key }),
            Err(m) => Err(AppError::Jwt(m)),
        }
    }

    /// Checks a token under [`token_policy`] and gives back the claims about
    /// its user, as JSON text: an accepted token is signed under this key.
    /// Whether a token is accepted also depends on the clock (its expiry), so
    /// when it is accepted is not stated; [`checking_outcome`] says how the
    /// checker's answer is passed on.
    pub fn verify(&self, token: &str) -> (r: Result<String, AppError>)
        ensures
            r matches Ok(c) ==> accepted_claims(token@, c@),
            r matches Ok(c) ==> ed25519_signature_ok(self.public_key(), token@),
            r matches Err(e) ==> e@.0 == ErrorKind::Jwt,
    {
        let p = token_policy();
        checking_outcome(verify_claims(self.key.as_slice(), token, p.issuer.as_str(), p.audience.as_str()))
    }
}

} // verus!

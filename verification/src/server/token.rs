//! API keys: signing a server key's tokens with `jsonwebtoken`, and checking
//! an API key against the server key.

use vstd::prelude::*;
use vstd::string::StringExecFns;

use jsonwebtoken::errors::ErrorKind;
use jsonwebtoken::{decode, encode, Algorithm, DecodingKey, EncodingKey, Header, Validation};
use serde_json::Value;

use crate::server::auth::{
    api_key_of, convert_api_key_to_jwt, convert_jwt_to_api_key, get_server_key, is_invalid_credentials, Claims,
};
use crate::server::error::{AuthenticationError, MicrosandboxServerError, ServerError};
use crate::server::management::{keygen_claims, token_validation_error, JwtFailure};
use crate::server::payload::{json_get, json_member};
use crate::text::{has_prefix, str_equal};

verus! {

//--------------------------------------------------------------------------------------------------
// Signing
//--------------------------------------------------------------------------------------------------

/// Names the JWT that `jsonwebtoken::encode` gives with the default header
/// (HS256) for the claims `exp` and `iat`, signed with the bytes of `key`. The
/// token depends on these alone: the header is fixed and HMAC signing is
/// deterministic.
pub uninterp spec fn jwt_hs256(exp: u64, iat: u64, key: Seq<char>) -> Seq<char>;

/// Calls `jsonwebtoken::encode` with the default header on the claims `exp`
/// and `iat` (written as a JSON object in that order) and the key's bytes as
/// HMAC secret. A token it gives is named by `jwt_hs256`; its error is given as
/// text. When it fails is not stated.
#[verifier::external_body]
fn jwt_encode(claims: &Claims, key: &str) -> (r: Result<String, String>)
    ensures
        r matches Ok(t) ==> t@ == jwt_hs256(claims.exp, claims.iat, key@),
{
    let mut object = serde_json::Map::new();
    object.insert("exp".to_string(), Value::from(claims.exp));
    object.insert("iat".to_string(), Value::from(claims.iat));
    encode(&Header::default(), &Value::Object(object), &EncodingKey::from_secret(key.as_bytes()))
        .map_err(|e| e.to_string())
}

/// The claims of an API key issued at `now` that lives `lifetime_secs`
/// seconds, a day where none is given.
pub open spec fn issued_claims(now: i64, lifetime_secs: Option<i64>) -> (u64, u64) {
    (
        (now + match lifetime_secs {
            Some(l) => l,
            None => 86400,
        }) as u64,
        now as u64,
    )
}

/// Generate an API key signed with the server key: a token issued at `now`
/// that expires `lifetime_secs` later (a day where none is given), with the
/// API key prefix before it.
pub fn keygen_token(server_key: &str, now: i64, lifetime_secs: Option<i64>) -> (r: Result<
    String,
    MicrosandboxServerError,
>)
    requires
        0 <= now,
        lifetime_secs matches Some(l) ==> 0 <= l && now + l <= i64::MAX,
        now + 86400 <= i64::MAX,
    ensures
        r matches Ok(k) ==> k@ == api_key_of(
            jwt_hs256(issued_claims(now, lifetime_secs).0, issued_claims(now, lifetime_secs).1, server_key@),
        ),
        r matches Err(e) ==> (e matches MicrosandboxServerError::KeyGenError(m) && has_prefix(
            m@,
            "Failed to generate token: "@,
        )),
{
    let claims = keygen_claims(now, lifetime_secs);
    match jwt_encode(&claims, server_key) {
        Ok(token) => convert_jwt_to_api_key(token.as_str()),
        Err(e) => {
            let m = String::from_str("Failed to generate token: ").concat(e.as_str());
            proof {
                reveal_strlit("Failed to generate token: ");
                assert(m@.subrange(0, 26) =~= "Failed to generate token: "@);
            }
            Err(MicrosandboxServerError::KeyGenError(m))
        },
    }
}

//--------------------------------------------------------------------------------------------------
// Checking
//--------------------------------------------------------------------------------------------------

/// Calls `jsonwebtoken::decode` on the token with the key's bytes as HMAC
/// secret and HS256 validation (signature, and expiry against the current time),
/// giving the token's claims as a JSON object. A failure is told apart as an
/// expired token, a bad signature, or another failure with its text. The
/// outcome depends on the time, so nothing is stated of it.
#[verifier::external_body]
fn jwt_decode(jwt: &str, key: &str) -> (r: Result<Value, JwtFailure>) {
    match decode::<Value>(jwt, &DecodingKey::from_secret(key.as_bytes()), &Validation::new(Algorithm::HS256)) {
        Ok(data) => Ok(data.claims),
        Err(e) => Err(match e.kind() {
            ErrorKind::ExpiredSignature => JwtFailure::Expired,
            ErrorKind::InvalidSignature => JwtFailure::BadSignature,
            _ => JwtFailure::Other(e.to_string()),
        }),
    }
}

/// Names the number of a JSON value, as `serde_json::Value::as_u64` gives it:
/// a non-negative integer that fits in `u64`, `None` for any other value.
pub uninterp spec fn json_u64(v: Value) -> Option<u64>;

/// Calls `serde_json::Value::as_u64`. The number it gives is named by `json_u64`.
#[verifier::external_body]
fn json_as_u64(v: &Value) -> (r: Option<u64>)
    ensures
        r == json_u64(*v),
{
    v.as_u64()
}

/// The number in the member `key` of the claims, where it is one.
pub open spec fn claim_number(claims: Value, key: Seq<char>) -> Option<u64> {
    match json_member(claims, key) {
        Some(m) => json_u64(m),
        None => None,
    }
}

fn claim(claims: &Value, key: &str) -> (r: Option<u64>)
    ensures
        r == claim_number(*claims, key@),
{
    match json_get(claims, key) {
        Some(m) => json_as_u64(m),
        None => None,
    }
}

/// The claims of a token that validated, or the error with which a token is
/// refused: the validation's failure, or a claim `exp` or `iat` that is missing
/// or not a number.
pub open spec fn token_claims_spec(outcome: Result<Value, JwtFailure>, r: Result<Claims, ServerError>) -> bool {
    match outcome {
        Err(f) => r matches Err(ServerError::Authentication(AuthenticationError::InvalidToken(m))) && m@
            == match f {
            JwtFailure::Expired => "Token expired"@,
            JwtFailure::BadSignature => "Invalid token signature"@,
            JwtFailure::Other(e) => "Token validation error: "@ + e@,
        },
        Ok(v) => match (claim_number(v, "exp"@), claim_number(v, "iat"@)) {
            (Some(exp), Some(iat)) => r == Ok::<Claims, ServerError>(Claims { exp, iat }),
            (None, _) => r matches Err(ServerError::Authentication(AuthenticationError::InvalidToken(m))) && m@
                == "Token validation error: JSON error: missing or invalid field `exp`"@,
            (Some(_), None) => r matches Err(ServerError::Authentication(AuthenticationError::InvalidToken(m)))
                && m@ == "Token validation error: JSON error: missing or invalid field `iat`"@,
        },
    }
}

/// The claims that a token's validation gives, or the error with which the
/// token is refused.
pub fn token_claims(outcome: Result<Value, JwtFailure>) -> (r: Result<Claims, ServerError>)
    ensures
        token_claims_spec(outcome, r),
{
    proof {
        reveal_strlit("exp");
        reveal_strlit("iat");
        reveal_strlit("Token validation error: ");
        reveal_strlit("JSON error: missing or invalid field `exp`");
        reveal_strlit("JSON error: missing or invalid field `iat`");
        reveal_strlit("Token validation error: JSON error: missing or invalid field `exp`");
        reveal_strlit("Token validation error: JSON error: missing or invalid field `iat`");
        assert("Token validation error: "@ + "JSON error: missing or invalid field `exp`"@
            =~= "Token validation error: JSON error: missing or invalid field `exp`"@);
        assert("Token validation error: "@ + "JSON error: missing or invalid field `iat`"@
            =~= "Token validation error: JSON error: missing or invalid field `iat`"@);
    }
    match outcome {
        Err(f) => Err(token_validation_error(f)),
        Ok(v) => match claim(&v, "exp") {
            None => Err(
                token_validation_error(
                    JwtFailure::Other(String::from_str("JSON error: missing or invalid field `exp`")),
                ),
            ),
            Some(exp) => match claim(&v, "iat") {
                None => Err(
                    token_validation_error(
                        JwtFailure::Other(String::from_str("JSON error: missing or invalid field `iat`")),
                    ),
                ),
                Some(iat) => Ok(Claims { exp, iat }),
            },
        },
    }
}

/// Check an API key against the server key and give its claims. The key must
/// have the API key prefix, and a server key must be configured; whether the
/// token then validates depends on the time, and its claims or the error are
/// those that `token_claims` gives for the validation's outcome.
pub fn validate_token(api_key: &str, server_key: &Option<String>) -> (r: Result<Claims, ServerError>)
    ensures
        !has_prefix(api_key@, "msb_"@) ==> (r matches Err(e) && is_invalid_credentials(
            e,
            "Invalid API key format: missing prefix"@,
        )),
        has_prefix(api_key@, "msb_"@) && server_key is None ==> (r matches Err(e) && is_invalid_credentials(
            e,
            "Server key not found in configuration"@,
        )),
        has_prefix(api_key@, "msb_"@) && server_key is Some ==> exists|outcome: Result<Value, JwtFailure>|
            token_claims_spec(outcome, r),
{
    let jwt = convert_api_key_to_jwt(api_key)?;
    let key = get_server_key(server_key)?;
    let outcome = jwt_decode(jwt.as_str(), key.as_str());
    token_claims(outcome)
}

} // verus!

//! Bearer-token authentication with HS256 JSON web tokens: reading the
//! `Authorization` header, checking a token, issuing a development token,
//! and the messages of a refused request.

use vstd::prelude::*;
use crate::search::starts_with;
use crate::text::{chars_of, concat, string_from_chars, to_owned_string};

verus! {

broadcast use vstd::string::group_string_axioms;

/// The payload of a token.
#[derive(Debug, Clone)]
pub struct Claims {
    /// The caller.
    pub sub: String,
    /// Expiry, Unix seconds.
    pub exp: u64,
    /// Issue time, Unix seconds.
    pub iat: u64,
}

/// The claims of an authenticated request.
#[derive(Debug)]
pub struct RequireAuth(pub Claims);

/// The body of a token request.
#[derive(Debug)]
pub struct TokenRequest {
    pub sub: String,
    pub secret: String,
}

/// Why a token was not accepted.
#[derive(Debug, Clone, Copy, PartialEq, Eq)]
pub enum TokenErrorKind {
    ExpiredSignature,
    InvalidSignature,
    InvalidToken,
    Other,
}

/// A refused request: answered with 401 and this message.
#[derive(Debug)]
pub struct Unauthorized {
    pub message: String,
}

/// The token of an `Authorization` header: the text after `Bearer `.
/// A missing (or unreadable) header and a header of another scheme are
/// refused, each with its message.
pub fn bearer_token(header: Option<&str>) -> (r: Result<String, Unauthorized>)
    ensures
        header is None ==> (r matches Err(u) && u.message@ == "Authorization header fehlt"@),
        header matches Some(h) && !starts_with(h@, "Bearer "@) ==> (r matches Err(u) && u.message@
            == "Bearer-Token erwartet"@),
        header matches Some(h) && starts_with(h@, "Bearer "@) ==> (r matches Ok(t) && t@ == header->0@.skip(7)),
{
    match header {
        None => Err(Unauthorized { message: to_owned_string("Authorization header fehlt") }),
        Some(h) => {
            let v = chars_of(h);
            let p = chars_of("Bearer ");
            proof {
                reveal_strlit("Bearer ");
            }
            if crate::search::starts_with_in(&v, &p) {
                let rest = crate::search::slice_chars(&v, 7, v.len());
                Ok(string_from_chars(&rest))
            } else {
                Err(Unauthorized { message: to_owned_string("Bearer-Token erwartet") })
            }
        },
    }
}

/// The message for a token that did not validate.
pub open spec fn spec_token_error_message(kind: TokenErrorKind) -> Seq<char> {
    match kind {
        TokenErrorKind::ExpiredSignature => "Token abgelaufen"@,
        TokenErrorKind::InvalidSignature => "Ungültige Signatur"@,
        TokenErrorKind::InvalidToken => "Ungültiges Token-Format"@,
        TokenErrorKind::Other => "Token-Validierung fehlgeschlagen"@,
    }
}

/// The refusal for a token that did not validate.
pub fn token_rejection(kind: TokenErrorKind) -> (u: Unauthorized)
    ensures
        u.message@ == spec_token_error_message(kind),
{
    let m = match kind {
        TokenErrorKind::ExpiredSignature => "Token abgelaufen",
        TokenErrorKind::InvalidSignature => "Ungültige Signatur",
        TokenErrorKind::InvalidToken => "Ungültiges Token-Format",
        TokenErrorKind::Other => "Token-Validierung fehlgeschlagen",
    };
    Unauthorized { message: to_owned_string(m) }
}

/// The claims of a development token: refused unless the request names the
/// configured secret; else issued now and valid for `expiry_secs`.
pub fn issue_claims(req: &TokenRequest, jwt_secret: &str, now_secs: u64, expiry_secs: u64) -> (r: Result<Claims, Unauthorized>)
    requires
        req.secret@ == jwt_secret@ ==> now_secs + expiry_secs <= u64::MAX,
    ensures
        req.secret@ != jwt_secret@ ==> (r matches Err(u) && u.message@ == "Falsches Secret"@),
        req.secret@ == jwt_secret@ ==> (r matches Ok(c) && c.sub@ == req.sub@ && c.iat == now_secs
            && c.exp == now_secs + expiry_secs),
{
    if !crate::text::str_eq(req.secret.as_str(), jwt_secret) {
        return Err(Unauthorized { message: to_owned_string("Falsches Secret") });
    }
    Ok(Claims { sub: req.sub.clone(), iat: now_secs, exp: now_secs + expiry_secs })
}

/// The HS256 token (`jsonwebtoken::encode` with the default header) of the
/// claims `sub`, `exp`, `iat` signed with `secret`.
pub uninterp spec fn hs256_token(sub: Seq<char>, exp: u64, iat: u64, secret: Seq<char>) -> Seq<char>;

/// `jsonwebtoken::encode` with the default header (HS256) and a key made
/// from the secret's bytes, over the claims as a JSON object with the keys
/// `sub`, `exp`, `iat` in that order. The key is an HMAC key as HS256 asks,
/// the JSON of a string and two integers always serialises, and HMAC
/// signing does not fail, so the call always gives the token: three
/// base64url parts joined by dots, so never empty. The token is named
/// `hs256_token`.
#[verifier::external_body]
fn encode_hs256(sub: &str, exp: u64, iat: u64, secret: &str) -> (r: Result<String, String>)
    ensures
        r is Ok,
        r matches Ok(t) ==> t@ == hs256_token(sub@, exp, iat, secret@),
        r matches Ok(t) ==> t@.len() > 0,
{
    let mut claims = serde_json::Map::new();
    claims.insert("sub".to_owned(), serde_json::Value::from(sub));
    claims.insert("exp".to_owned(), serde_json::Value::from(exp));
    claims.insert("iat".to_owned(), serde_json::Value::from(iat));
    let key = jsonwebtoken::EncodingKey::from_secret(secret.as_bytes());
    jsonwebtoken::encode(&jsonwebtoken::Header::default(), &claims, &key).map_err(|e| e.to_string())
}

/// A development token: refused unless the request names the configured
/// secret; else the HS256 token of claims issued now and valid for
/// `expiry_secs`, signed with the secret.
pub fn issue_token(req: &TokenRequest, jwt_secret: &str, now_secs: u64, expiry_secs: u64) -> (r: Result<String, Unauthorized>)
    requires
        req.secret@ == jwt_secret@ ==> now_secs + expiry_secs <= u64::MAX,
    ensures
        req.secret@ != jwt_secret@ ==> (r matches Err(u) && u.message@ == "Falsches Secret"@),
        req.secret@ == jwt_secret@ ==> (r matches Ok(t) && t@ == hs256_token(
            req.sub@,
            (now_secs + expiry_secs) as u64,
            now_secs,
            jwt_secret@,
        ) && t@.len() > 0),
{
    let claims = issue_claims(req, jwt_secret, now_secs, expiry_secs)?;
    match encode_hs256(claims.sub.as_str(), claims.exp, claims.iat, jwt_secret) {
        Ok(t) => Ok(t),
        Err(m) => Err(Unauthorized { message: m }),
    }
}

/// `jsonwebtoken::decode` of an HS256 token with a key from the secret's
/// bytes and the default validation, into the claims' `sub` (a string),
/// `exp` and `iat` (integers), each `None` when the token lacks it or holds
/// another kind of value; on failure the kind of error.
///
/// The validation compares `exp` with the current time, so the outcome is
/// not a function of the arguments. What holds whatever the time: a token
/// that `encode_hs256` made with the same secret has a valid HS256
/// signature, an `exp` claim and no audience, so it decodes to its own
/// claims unless it has expired. Of other tokens nothing is stated.
#[verifier::external_body]
fn decode_hs256(token: &str, secret: &str) -> (r: Result<(Option<String>, Option<u64>, Option<u64>), TokenErrorKind>)
    ensures
        forall|sub: Seq<char>, exp: u64, iat: u64|
            token@ == #[trigger] hs256_token(sub, exp, iat, secret@) ==> (r matches Ok((Some(s), Some(e), Some(i)))
                && s@ == sub && e == exp && i == iat) || r matches Err(TokenErrorKind::ExpiredSignature),
{
    let key = jsonwebtoken::DecodingKey::from_secret(secret.as_bytes());
    let validation = jsonwebtoken::Validation::default();
    match jsonwebtoken::decode::<std::collections::BTreeMap<String, serde_json::Value>>(token, &key, &validation) {
        Ok(d) => Ok((
            d.claims.get("sub").and_then(|v| v.as_str()).map(|v| v.to_owned()),
            d.claims.get("exp").and_then(|v| v.as_u64()),
            d.claims.get("iat").and_then(|v| v.as_u64()),
        )),
        Err(e) => Err(match e.kind() {
            jsonwebtoken::errors::ErrorKind::ExpiredSignature => TokenErrorKind::ExpiredSignature,
            jsonwebtoken::errors::ErrorKind::InvalidSignature => TokenErrorKind::InvalidSignature,
            jsonwebtoken::errors::ErrorKind::InvalidToken => TokenErrorKind::InvalidToken,
            _ => TokenErrorKind::Other,
        }),
    }
}

/// The claims of a decoded token: all three claims present, else refused as
/// a failed validation; a token that did not validate is refused with the
/// message of its kind of error.
pub fn claims_from_decoded(decoded: Result<(Option<String>, Option<u64>, Option<u64>), TokenErrorKind>) -> (r: Result<Claims, Unauthorized>)
    ensures
        decoded matches Ok((Some(sub), Some(exp), Some(iat))) ==> (r matches Ok(c) && c.sub == sub && c.exp
            == exp && c.iat == iat),
        decoded matches Ok(parts) && (parts.0 is None || parts.1 is None || parts.2 is None) ==> (r matches Err(
            u,
        ) && u.message@ == spec_token_error_message(TokenErrorKind::Other)),
        decoded matches Err(k) ==> (r matches Err(u) && u.message@ == spec_token_error_message(k)),
{
    match decoded {
        Ok((Some(sub), Some(exp), Some(iat))) => Ok(Claims { sub, exp, iat }),
        Ok(_) => Err(token_rejection(TokenErrorKind::Other)),
        Err(k) => Err(token_rejection(k)),
    }
}

/// The claims of a request: its `Authorization` header must carry a bearer
/// token that validates against the secret. A missing header and another
/// scheme are refused with their messages; the token's own check depends
/// on the current time, and its refusal carries one of the token messages.
pub fn authenticate(header: Option<&str>, jwt_secret: &str) -> (r: Result<Claims, Unauthorized>)
    ensures
        header is None ==> (r matches Err(u) && u.message@ == "Authorization header fehlt"@),
        header matches Some(h) && !starts_with(h@, "Bearer "@) ==> (r matches Err(u) && u.message@
            == "Bearer-Token erwartet"@),
        header matches Some(h) && starts_with(h@, "Bearer "@) ==> (r matches Err(u) ==> exists|k: TokenErrorKind|
            u.message@ == #[trigger] spec_token_error_message(k)),
        forall|sub: Seq<char>, exp: u64, iat: u64|
            header matches Some(h) && h@ == "Bearer "@ + #[trigger] hs256_token(sub, exp, iat, jwt_secret@) ==> (r matches Ok(
                c,
            ) && c.sub@ == sub && c.exp == exp && c.iat == iat) || (r matches Err(u) && u.message@ == "Token abgelaufen"@),
{
    let read = bearer_token(header);
    proof {
        reveal_strlit("Bearer ");
        assert forall|sub: Seq<char>, exp: u64, iat: u64|
            header matches Some(h) && h@ == "Bearer "@ + #[trigger] hs256_token(sub, exp, iat, jwt_secret@) implies starts_with(
                header->0@,
                "Bearer "@,
            ) && header->0@.skip(7) == hs256_token(sub, exp, iat, jwt_secret@) by {
            let h = header->0;
            assert(h@.subrange(0, 7) =~= "Bearer "@);
            assert(h@.skip(7) =~= hs256_token(sub, exp, iat, jwt_secret@));
        }
    }
    let token = match read {
        Ok(t) => t,
        Err(u) => {
            return Err(u);
        },
    };
    let r = claims_from_decoded(decode_hs256(token.as_str(), jwt_secret));
    proof {
        reveal_strlit("Token abgelaufen");
        if r is Err {
            let u = r->Err_0;
            assert(u.message@ == spec_token_error_message(TokenErrorKind::Other)
                || exists|k: TokenErrorKind| u.message@ == #[trigger] spec_token_error_message(k));
        }
        assert forall|sub: Seq<char>, exp: u64, iat: u64|
            header matches Some(h) && h@ == "Bearer "@ + #[trigger] hs256_token(sub, exp, iat, jwt_secret@) implies (r matches Ok(
                c,
            ) && c.sub@ == sub && c.exp == exp && c.iat == iat) || (r matches Err(u) && u.message@ == "Token abgelaufen"@) by {
            assert(token@ == hs256_token(sub, exp, iat, jwt_secret@));
        }
    }
    r
}

} // verus!

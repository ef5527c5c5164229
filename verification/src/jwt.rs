//! Bearer credentials: creating and decoding signed tokens. Signing and
//! signature checking are delegated to the jsonwebtoken crate; decoding
//! also checks expiry against the clock, so nothing is promised of a
//! decode outcome. Everything downstream of one — range checks, the exact
//! issuer and audience comparison, and the assembled claims — is stated
//! exactly over the decoded plain values by `accept_claims`.
use vstd::prelude::*;

use jsonwebtoken::{decode, encode, Algorithm, DecodingKey, EncodingKey, Header, Validation};
use serde_json::Value;

use crate::settings::JwtSetting;
use crate::users::UserDto;

verus! {

/// The decoded fields of an accepted credential.
#[derive(Debug, Clone)]
pub struct Claims {
    /// Subject: the user id.
    pub sub: i32,
    /// Expiration time, Unix seconds.
    pub exp: usize,
    /// Issuer.
    pub iss: String,
    /// Audience.
    pub aud: String,
}

/// Why creating a token failed.
#[derive(Debug, Clone, PartialEq, Eq, Structural)]
pub enum TokenError {
    /// The requested lifetime does not yield a representable expiry.
    InvalidExpiration,
}

/// The signed token for the given claims and secret. Signing with a fixed
/// algorithm is deterministic, so the token is a function of these values
/// alone; nothing here says what the text looks like.
pub uninterp spec fn jwt_token_of(
    sub: int,
    exp: int,
    iss: Seq<char>,
    aud: Seq<char>,
    secret: Seq<char>,
) -> Seq<char>;

/// Relies on chrono's `Utc::now` for the current Unix timestamp. The result
/// depends on the clock, so nothing is promised of it.
#[verifier::external_body]
fn unix_now() -> i64 {
    chrono::Utc::now().timestamp()
}

/// Relies on jsonwebtoken's `encode` with HS256 and a plain secret, under
/// the crate's feature-selected RustCrypto provider: HMAC accepts any key
/// and the claims object built here always serializes, so signing succeeds,
/// and the token is a function of the claims and the secret alone.
#[verifier::external_body]
fn encode_hs256(sub: i32, exp: u64, iss: &str, aud: &str, secret: &str) -> (r: Result<String, ()>)
    ensures
        r is Ok,
        r matches Ok(t) ==> t@ == jwt_token_of(sub as int, exp as int, iss@, aud@, secret@),
{
    let mut claims = serde_json::Map::new();
    claims.insert("sub".to_string(), Value::from(sub));
    claims.insert("exp".to_string(), Value::from(exp));
    claims.insert("iss".to_string(), Value::from(iss));
    claims.insert("aud".to_string(), Value::from(aud));
    let header = Header::new(Algorithm::HS256);
    let key = EncodingKey::from_secret(secret.as_bytes());
    encode(&header, &Value::Object(claims), &key).map_err(|_| ())
}

/// Relies on jsonwebtoken's `decode` with HS256: it checks the signature
/// against the secret, the expiry against the clock (with 60 seconds of
/// leeway), and the issuer and audience claims against the given values
/// where those claims are present. The four claim fields come back as
/// plain values, each absent when missing or ill-typed. The outcome
/// depends on the clock, so nothing is promised of it.
#[verifier::external_body]
fn decode_hs256(token: &str, iss: &str, aud: &str, secret: &str) -> Result<
    (Option<i64>, Option<u64>, Option<String>, Option<String>),
    String,
> {
    let mut v = Validation::new(Algorithm::HS256);
    v.set_issuer(&[iss]);
    v.set_audience(&[aud]);
    let key = DecodingKey::from_secret(secret.as_bytes());
    let c = decode::<Value>(token, &key, &v).map_err(|e| e.to_string())?.claims;
    let sub = c.get("sub").and_then(|x| x.as_i64());
    let exp = c.get("exp").and_then(|x| x.as_u64());
    let is = c.get("iss").and_then(|x| x.as_str());
    let au = c.get("aud").and_then(|x| x.as_str());
    Ok((sub, exp, is.map(|s| s.to_string()), au.map(|s| s.to_string())))
}

/// Decides acceptance of a decode outcome against a configuration, exactly:
/// a decoder refusal keeps its detail; a missing claim, a subject outside
/// the stored id range, an expiry outside the address range, and an issuer
/// or audience differing from the configured text are each refused with a
/// fixed detail, in that order; anything else is accepted and the claims
/// carry the decoded subject and expiry and the token's issuer and
/// audience texts.
pub fn accept_claims(
    decoded: Result<(Option<i64>, Option<u64>, Option<String>, Option<String>), String>,
    jwt_config: &JwtSetting,
) -> (r: Result<Claims, String>)
    ensures
        (match decoded {
            Err(e) => (r matches Err(m) && m@ == "Token decode error: "@ + e@),
            Ok(q) => (match (q.0, q.1, q.2, q.3) {
                (None, _, _, _) => (r matches Err(m) && m@ == "Token decode error: "@
                    + "no usable subject claim"@),
                (Some(_), None, _, _) => (r matches Err(m) && m@ == "Token decode error: "@
                    + "no usable expiry claim"@),
                (Some(_), Some(_), None, _) => (r matches Err(m) && m@ == "Token decode error: "@
                    + "no usable issuer claim"@),
                (Some(_), Some(_), Some(_), None) => (r matches Err(m) && m@
                    == "Token decode error: "@ + "no usable audience claim"@),
                (Some(sub), Some(exp), Some(iss), Some(aud)) => {
                    if sub < i32::MIN as i64 || sub > i32::MAX as i64 {
                        (r matches Err(m) && m@ == "Token decode error: "@
                            + "subject out of range"@)
                    } else if exp > usize::MAX as u64 {
                        (r matches Err(m) && m@ == "Token decode error: "@
                            + "expiry out of range"@)
                    } else if iss@ != jwt_config.issuer@ {
                        (r matches Err(m) && m@ == "Token decode error: "@ + "issuer mismatch"@)
                    } else if aud@ != jwt_config.audience@ {
                        (r matches Err(m) && m@ == "Token decode error: "@ + "audience mismatch"@)
                    } else {
                        (r matches Ok(c) && c.sub == sub as i32 && c.exp == exp as usize && c.iss
                            == iss && c.aud == aud)
                    }
                },
            }),
        }),
{
    let q = match decoded {
        Ok(q) => q,
        Err(e) => {
            return Err(decode_error_message(e.as_str()));
        },
    };
    let sub = match q.0 {
        Some(s) => s,
        None => {
            return Err(decode_error_message("no usable subject claim"));
        },
    };
    let exp = match q.1 {
        Some(e) => e,
        None => {
            return Err(decode_error_message("no usable expiry claim"));
        },
    };
    let iss = match q.2 {
        Some(i) => i,
        None => {
            return Err(decode_error_message("no usable issuer claim"));
        },
    };
    let aud = match q.3 {
        Some(a) => a,
        None => {
            return Err(decode_error_message("no usable audience claim"));
        },
    };
    if sub < i32::MIN as i64 || sub > i32::MAX as i64 {
        Err(decode_error_message("subject out of range"))
    } else if exp > usize::MAX as u64 {
        Err(decode_error_message("expiry out of range"))
    } else if !(iss == jwt_config.issuer) {
        Err(decode_error_message("issuer mismatch"))
    } else if !(aud == jwt_config.audience) {
        Err(decode_error_message("audience mismatch"))
    } else {
        Ok(Claims { sub: sub as i32, exp: exp as usize, iss, aud })
    }
}

/// Creates and decodes tokens against one configuration.
pub struct JwtUtil<'a> {
    pub jwt_config: &'a JwtSetting,
}

impl<'a> JwtUtil<'a> {
    /// Wraps a configuration.
    pub fn new(jwt_config: &'a JwtSetting) -> (r: Self)
        ensures
            r.jwt_config == jwt_config,
    {
        JwtUtil { jwt_config }
    }

    /// Creates the token that expires the configured number of minutes
    /// after the given time: exactly that token on a representable expiry,
    /// and exactly the expiration refusal otherwise.
    pub fn create_token_at(&self, user: &UserDto, now: i64) -> (r: Result<String, TokenError>)
        ensures
            ({
                let e = now + 60 * (self.jwt_config.expiration_minutes as int);
                &&& (60 * (self.jwt_config.expiration_minutes as int) > i64::MAX || e > i64::MAX
                    || e < 0) <==> r == Err::<String, TokenError>(TokenError::InvalidExpiration)
                &&& !(60 * (self.jwt_config.expiration_minutes as int) > i64::MAX || e > i64::MAX
                    || e < 0) ==> (r matches Ok(t) && t@ == jwt_token_of(
                    user.id as int,
                    e,
                    self.jwt_config.issuer@,
                    self.jwt_config.audience@,
                    self.jwt_config.secret_key@,
                ))
            }),
    {
        let minutes: usize = self.jwt_config.expiration_minutes;
        if minutes as u64 > (i64::MAX / 60) as u64 {
            return Err(TokenError::InvalidExpiration);
        }
        let add: i64 = (minutes as i64) * 60;
        if now > i64::MAX - add || now + add < 0 {
            return Err(TokenError::InvalidExpiration);
        }
        let exp: i64 = now + add;
        match encode_hs256(
            user.id,
            exp as u64,
            self.jwt_config.issuer.as_str(),
            self.jwt_config.audience.as_str(),
            self.jwt_config.secret_key.as_str(),
        ) {
            Ok(t) => Ok(t),
            Err(_) => Err(TokenError::InvalidExpiration),
        }
    }

    /// Creates a token for the user that expires the configured number of
    /// minutes from now. The clock decides the expiry, so only the token's
    /// provenance is stated.
    pub fn create_token(&self, user: &UserDto) -> (r: Result<String, TokenError>)
        ensures
            r matches Ok(t) ==> exists|e: int|
                t@ == jwt_token_of(
                    user.id as int,
                    e,
                    self.jwt_config.issuer@,
                    self.jwt_config.audience@,
                    self.jwt_config.secret_key@,
                ),
    {
        let now = unix_now();
        self.create_token_at(user, now)
    }

    /// Decodes a token through the trusted decoder, then decides acceptance
    /// with `accept_claims`: accepted claims therefore carry exactly the
    /// configured issuer and audience, and every refusal carries the fixed
    /// prefix and a detail.
    pub fn decode_token(&self, token: &str) -> (r: Result<Claims, String>)
        ensures
            r matches Ok(c) ==> c.iss@ == self.jwt_config.issuer@ && c.aud@
                == self.jwt_config.audience@,
            r matches Err(m) ==> exists|d: Seq<char>| m@ == "Token decode error: "@ + d,
    {
        let decoded = decode_hs256(
            token,
            self.jwt_config.issuer.as_str(),
            self.jwt_config.audience.as_str(),
            self.jwt_config.secret_key.as_str(),
        );
        accept_claims(decoded, self.jwt_config)
    }
}

/// The decode-failure text: a fixed prefix and the detail.
pub fn decode_error_message(detail: &str) -> (r: String)
    ensures
        r@ == "Token decode error: "@ + detail@,
{
    let mut r = "Token decode error: ".to_owned();
    r.append(detail);
    r
}

} // verus!

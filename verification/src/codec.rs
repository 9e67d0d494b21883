//! The credential codec: claims to signed token and back.
//!
//! A token is signed with HMAC-SHA256 under a secret that every service shares.
//! Signing and signature checking are done by the `jsonwebtoken` crate; what is
//! accepted of a token whose signature holds is decided here.

use vstd::prelude::*;
use crate::claims::{Claims, ClaimsView};
use crate::role::{lemma_role_name_round_trip, UserRole};

verus! {

/// The three claims as they are found in a token, before any of them is
/// judged. A claim is absent where the payload has no member of that name, or
/// one of another type.
#[derive(Debug, Clone, PartialEq, Eq)]
pub struct RawClaims {
    /// The member `sub`, where it is a string.
    pub sub: Option<String>,
    /// The member `role`, where it is a string.
    pub role: Option<String>,
    /// The member `exp`, where it is a non-negative integer below 2^64.
    pub exp: Option<u64>,
}

/// Raw claims as mathematical values.
pub struct RawClaimsView {
    pub sub: Option<Seq<char>>,
    pub role: Option<Seq<char>>,
    pub exp: Option<u64>,
}

impl View for RawClaims {
    type V = RawClaimsView;

    open spec fn view(&self) -> RawClaimsView {
        RawClaimsView {
            sub: match self.sub {
                Some(s) => Some(s@),
                None => None,
            },
            role: match self.role {
                Some(s) => Some(s@),
                None => None,
            },
            exp: self.exp,
        }
    }
}

/// Every way in which a token fails verification. A bad signature, an expired
/// credential and a malformed payload are deliberately one and the same error:
/// a caller cannot learn from it which test the token failed.
#[derive(Debug, Clone, Copy, PartialEq, Eq, Structural)]
pub struct VerificationError;

/// The signer did not produce a token.
#[derive(Debug, Clone, Copy, PartialEq, Eq, Structural)]
pub struct EncodingError;

/// What `jsonwebtoken::decode` finds in `token` under `secret`: the raw claims
/// of the payload where the token is well formed and its signature holds,
/// nothing otherwise.
pub uninterp spec fn token_payload(token: Seq<char>, secret: Seq<char>) -> Option<RawClaimsView>;

/// The token that `jsonwebtoken::encode` makes of the three claims under
/// `secret`, where it makes one.
pub uninterp spec fn signed_token(
    sub: Seq<char>,
    role: Seq<char>,
    exp: u64,
    secret: Seq<char>,
) -> Option<Seq<char>>;

/// The raw claims in which all three members are present.
pub open spec fn raw_claims_of(sub: Seq<char>, role: Seq<char>, exp: u64) -> RawClaimsView {
    RawClaimsView { sub: Some(sub), role: Some(role), exp: Some(exp) }
}

/// Checks the signature of `token` and reads its payload.
///
/// Trusted: calls `jsonwebtoken::decode` with the bytes of `secret` as HMAC
/// key and the crate's default validation (HS256 only), in which the crate's
/// own expiry test is switched off. With that test off the call never reads
/// the clock, so its outcome depends on `token` and `secret` alone; expiry is
/// judged by [`claims_from`] against the caller's clock. The rest of that
/// validation stands: the token must name HS256, its payload must hold a
/// numeric `exp`, and a payload with an `aud` member is refused, since no
/// audience is expected. The payload is taken as a `serde_json::Value`, of
/// which the members `sub`, `role` and `exp` are handed on, each where it has
/// the type that [`RawClaims`] names.
#[verifier::external_body]
fn read_token(token: &str, secret: &str) -> (found: Option<RawClaims>)
    ensures
        match found {
            Some(raw) => token_payload(token@, secret@) == Some(raw@),
            None => token_payload(token@, secret@) is None,
        },
{
    let mut validation = jsonwebtoken::Validation::default();
    validation.validate_exp = false;
    let key = jsonwebtoken::DecodingKey::from_secret(secret.as_bytes());
    match jsonwebtoken::decode::<serde_json::Value>(token, &key, &validation) {
        Ok(data) => Some(RawClaims {
            sub: data.claims.get("sub").and_then(serde_json::Value::as_str).map(String::from),
            role: data.claims.get("role").and_then(serde_json::Value::as_str).map(String::from),
            exp: data.claims.get("exp").and_then(serde_json::Value::as_u64),
        }),
        Err(_) => None,
    }
}

/// Signs the three claims.
///
/// Trusted: calls `jsonwebtoken::encode` with the crate's default header
/// (HS256), the bytes of `secret` as HMAC key, and a JSON object with the
/// members `sub`, `role` and `exp`. The contract claims three things of it:
/// that the outcome depends on the arguments alone; that a token always comes
/// back, since an HMAC key fits the HS256 header, a JSON object of two strings
/// and an unsigned integer is always written, and HMAC signing has no error;
/// and that the token is one in which `jsonwebtoken::decode`, under the same
/// secret, finds the same three claims.
#[verifier::external_body]
fn sign_claims(sub: &str, role: &str, exp: u64, secret: &str) -> (token: Option<String>)
    ensures
        token is Some,
        match token {
            Some(t) => signed_token(sub@, role@, exp, secret@) == Some(t@),
            None => signed_token(sub@, role@, exp, secret@) is None,
        },
        token matches Some(t) ==> token_payload(t@, secret@) == Some(
            raw_claims_of(sub@, role@, exp),
        ),
{
    let mut claims = serde_json::Map::new();
    claims.insert(String::from("sub"), serde_json::Value::from(sub));
    claims.insert(String::from("role"), serde_json::Value::from(role));
    claims.insert(String::from("exp"), serde_json::Value::from(exp));
    let key = jsonwebtoken::EncodingKey::from_secret(secret.as_bytes());
    jsonwebtoken::encode(&jsonwebtoken::Header::default(), &claims, &key).ok()
}

/// The claims that a payload yields at the instant `now`: all three members
/// are present, the role is the name of a role, and the expiry lies strictly
/// after `now` and fits the machine's word.
pub open spec fn accepted_claims(payload: Option<RawClaimsView>, now: u64) -> Option<ClaimsView> {
    match payload {
        Some(RawClaimsView { sub: Some(sub), role: Some(role), exp: Some(exp) }) => {
            match UserRole::spec_from_name(role) {
                Some(r) => if now < exp && exp <= usize::MAX {
                    Some(ClaimsView { sub, role: r, exp: exp as nat })
                } else {
                    None
                },
                None => None,
            }
        },
        _ => None,
    }
}

/// An expired credential is rejected, whether or not its signature holds.
/// Take a token that, if its signature holds under `secret`, carries the
/// expiry `exp`, and an instant `now` at or after `exp`: decoding at `now`
/// yields no claims.
pub proof fn law_expired_token_rejected(token: Seq<char>, secret: Seq<char>, exp: u64, now: u64)
    requires
        exp <= now,
        token_payload(token, secret) matches Some(raw) ==> raw.exp == Some(exp),
    ensures
        accepted_claims(token_payload(token, secret), now) is None,
{
}

/// A token whose signature does not hold is rejected. Take a token in which
/// nothing is found under the verifying secret: decoding yields no claims,
/// whatever the token says and whenever it is decoded.
pub proof fn law_unverified_token_rejected(token: Seq<char>, secret: Seq<char>, now: u64)
    requires
        token_payload(token, secret) is None,
    ensures
        accepted_claims(token_payload(token, secret), now) is None,
{
}

/// Claims survive their payload. Written as raw claims, with the role under
/// its name, and read back at any instant before their expiry, claims come
/// out as they went in.
pub proof fn law_payload_round_trip(claims: ClaimsView, now: u64)
    requires
        now < claims.exp <= usize::MAX,
    ensures
        accepted_claims(
            Some(raw_claims_of(claims.sub, claims.role.spec_name(), claims.exp as u64)),
            now,
        ) == Some(claims),
{
    lemma_role_name_round_trip(claims.role);
}

/// The outcome of decoding, as an `Option` of mathematical claims.
pub open spec fn decoded_view(outcome: Result<Claims, VerificationError>) -> Option<ClaimsView> {
    match outcome {
        Ok(claims) => Some(claims@),
        Err(_) => None,
    }
}

/// Judges the payload of a token whose signature has been checked (`None`
/// where it did not hold): the claims are accepted exactly when
/// [`accepted_claims`] yields them.
pub fn claims_from(payload: Option<RawClaims>, now: u64) -> (outcome: Result<
    Claims,
    VerificationError,
>)
    ensures
        decoded_view(outcome) == accepted_claims(
            match payload {
                Some(raw) => Some(raw@),
                None => None,
            },
            now,
        ),
{
    let raw = match payload {
        Some(raw) => raw,
        None => return Err(VerificationError),
    };
    let sub = match raw.sub {
        Some(sub) => sub,
        None => return Err(VerificationError),
    };
    let role = match raw.role {
        Some(name) => match UserRole::from_name(name.as_str()) {
            Some(role) => role,
            None => return Err(VerificationError),
        },
        None => return Err(VerificationError),
    };
    let exp = match raw.exp {
        Some(exp) => exp,
        None => return Err(VerificationError),
    };
    if exp <= now || exp > usize::MAX as u64 {
        return Err(VerificationError);
    }
    Ok(Claims { sub, role, exp: exp as usize })
}

/// Decodes a token at the instant `now` (seconds since the Unix epoch).
///
/// The token is rejected where its signature does not hold under `secret`,
/// where its payload does not have the shape of claims, and where its expiry
/// is at or before `now`; the error is the same in each case.
pub fn decode(token: &str, secret: &str, now: u64) -> (outcome: Result<Claims, VerificationError>)
    ensures
        decoded_view(outcome) == accepted_claims(token_payload(token@, secret@), now),
{
    claims_from(read_token(token, secret), now)
}

/// The outcome of encoding, as an `Option` of text.
pub open spec fn encoded_view(outcome: Result<String, EncodingError>) -> Option<Seq<char>> {
    match outcome {
        Ok(token) => Some(token@),
        Err(_) => None,
    }
}

/// Encodes claims as a signed token.
///
/// A token always comes back, and it is verifiable: decoded under the same
/// secret at any instant before its expiry, it yields exactly the claims
/// given.
pub fn encode(claims: &Claims, secret: &str) -> (outcome: Result<String, EncodingError>)
    ensures
        outcome is Ok,
        encoded_view(outcome) == signed_token(
            claims.sub@,
            claims.role.spec_name(),
            claims.exp as u64,
            secret@,
        ),
        outcome matches Ok(token) ==> forall|now: u64|
            now < claims.exp ==> #[trigger] accepted_claims(token_payload(token@, secret@), now)
                == Some(claims@),
{
    let signed = sign_claims(claims.sub.as_str(), claims.role.name(), claims.exp as u64, secret);
    proof {
        assert forall|now: u64| now < claims.exp implies #[trigger] accepted_claims(
            Some(raw_claims_of(claims.sub@, claims.role.spec_name(), claims.exp as u64)),
            now,
        ) == Some(claims@) by {
            law_payload_round_trip(claims@, now);
        }
    }
    match signed {
        Some(token) => Ok(token),
        None => Err(EncodingError),
    }
}

} // verus!

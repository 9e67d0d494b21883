//! The identity extractor: from the `Authorization` header of a request to
//! the principal that the request speaks for.
//!
//! Extraction is stateless. It reads the header, the shared secret and the
//! clock, and nothing else: no store is consulted, so any service can verify a
//! credential that another process issued.

use vstd::prelude::*;
use vstd::string::StrSliceExecFns;
use crate::claims::{Claims, ClaimsView};
use crate::codec::{accepted_claims, decode, token_payload};
use crate::failure::Failure;
use crate::role::UserRole;

verus! {

/// The principal that a request speaks for: rebuilt from the credential of
/// each request, never stored, and valid for that one request.
#[derive(Debug, Clone, Copy, PartialEq, Eq, Structural)]
pub struct AuthenticatedUser {
    /// Identifier of the principal, a 128-bit UUID.
    pub id: u128,
    /// Role of the principal, as the credential states it.
    pub role: UserRole,
}

/// The identifier that `uuid::Uuid::parse_str` reads from a text, as a
/// 128-bit number; nothing where the text is not a UUID.
pub uninterp spec fn parsed_id(text: Seq<char>) -> Option<u128>;

/// The text that `uuid::Uuid` writes for an identifier.
pub uninterp spec fn id_text(id: u128) -> Seq<char>;

/// Reads an identifier.
///
/// Trusted: calls `uuid::Uuid::parse_str` and takes the value of the result
/// with `as_u128`. The outcome depends on the text alone.
#[verifier::external_body]
pub(crate) fn parse_id(text: &str) -> (id: Option<u128>)
    ensures
        id == parsed_id(text@),
{
    match uuid::Uuid::parse_str(text) {
        Ok(id) => Some(id.as_u128()),
        Err(_) => None,
    }
}

/// Writes an identifier.
///
/// Trusted: builds the UUID with `uuid::Uuid::from_u128` and formats it with
/// its `Display` impl, which writes the hyphenated form in lower case. The
/// contract claims that the text depends on the identifier alone, and that
/// `uuid::Uuid::parse_str` reads the same identifier back from it.
#[verifier::external_body]
pub(crate) fn write_id(id: u128) -> (text: String)
    ensures
        text@ == id_text(id),
        parsed_id(text@) == Some(id),
{
    uuid::Uuid::from_u128(id).to_string()
}

/// The secret that signs and verifies credentials where none is configured.
///
/// UNSAFE FOR PRODUCTION. Anyone who knows this value can forge a credential
/// for any principal and role. It exists so that a development setup runs
/// without configuration; a deployment must configure its own secret.
pub const DEFAULT_SECRET: &'static str = "default_secret";

/// The secret under which credentials are verified: the configured one, or
/// [`DEFAULT_SECRET`] where none is configured.
pub open spec fn spec_verification_secret(configured: Option<Seq<char>>) -> Seq<char> {
    match configured {
        Some(secret) => secret,
        None => DEFAULT_SECRET@,
    }
}

/// The secret under which credentials are verified: the configured one, or
/// [`DEFAULT_SECRET`] where none is configured. The fallback is unsafe for
/// production, as said there.
pub fn verification_secret<'a>(configured: Option<&'a str>) -> (secret: &'a str)
    ensures
        secret@ == spec_verification_secret(
            match configured {
                Some(s) => Some(s@),
                None => None,
            },
        ),
{
    match configured {
        Some(secret) => secret,
        None => DEFAULT_SECRET,
    }
}

/// The scheme that must open the `Authorization` header, with the space that
/// parts it from the token.
pub open spec fn bearer_prefix() -> Seq<char> {
    "Bearer "@
}

/// The token in the value of an `Authorization` header: what follows the
/// exact prefix `Bearer `, if the value starts with it.
pub open spec fn spec_bearer_token(header: Seq<char>) -> Option<Seq<char>> {
    if bearer_prefix().is_prefix_of(header) {
        Some(header.skip(bearer_prefix().len() as int))
    } else {
        None
    }
}

/// The token in the value of an `Authorization` header: what follows the
/// exact prefix `Bearer `, if the value starts with it.
pub fn bearer_token<'a>(header: &'a str) -> (token: Option<&'a str>)
    ensures
        match token {
            Some(t) => spec_bearer_token(header@) == Some(t@),
            None => spec_bearer_token(header@) is None,
        },
{
    let prefix = "Bearer ";
    proof {
        reveal_strlit("Bearer ");
    }
    let n = header.unicode_len();
    if n < 7 {
        return None;
    }
    let mut i: usize = 0;
    while i < 7
        invariant
            i <= 7 <= n,
            n == header@.len(),
            prefix@ == bearer_prefix(),
            prefix@.len() == 7,
            forall|j: int| 0 <= j < i ==> header@[j] == prefix@[j],
        decreases 7 - i,
    {
        if header.get_char(i) != prefix.get_char(i) {
            return None;
        }
        i += 1;
    }
    let rest = header.substring_char(7, n);
    proof {
        assert(header@.subrange(0, 7) =~= prefix@);
        assert(header@.subrange(7, n as int) =~= header@.skip(7));
    }
    Some(rest)
}

/// The principal that claims stand for: the subject read as an identifier,
/// with the role that the credential states.
pub open spec fn spec_principal(claims: Option<ClaimsView>) -> Result<AuthenticatedUser, Failure> {
    match claims {
        Some(c) => match parsed_id(c.sub) {
            Some(id) => Ok(AuthenticatedUser { id, role: c.role }),
            None => Err(Failure::InvalidToken),
        },
        None => Err(Failure::InvalidToken),
    }
}

/// What extraction yields for a request: the principal of the credential in
/// its `Authorization` header, where the header is there, starts with the
/// bearer prefix, carries a token that verifies under `secret` at `now`, and
/// the subject of the token is an identifier. Every other request is
/// unauthorized.
pub open spec fn spec_from_request(
    authorization: Option<Seq<char>>,
    secret: Seq<char>,
    now: u64,
) -> Result<AuthenticatedUser, Failure> {
    match authorization {
        Some(header) => match spec_bearer_token(header) {
            Some(token) => spec_principal(accepted_claims(token_payload(token, secret), now)),
            None => Err(Failure::InvalidToken),
        },
        None => Err(Failure::InvalidToken),
    }
}

/// A request without a bearer credential is rejected. Where the request has
/// no `Authorization` header, or the value of the header does not start with
/// the exact prefix `Bearer `, extraction fails as unauthorized, whatever the
/// secret and the instant.
pub proof fn law_no_bearer_credential_rejected(
    authorization: Option<Seq<char>>,
    secret: Seq<char>,
    now: u64,
)
    requires
        authorization matches Some(header) ==> !bearer_prefix().is_prefix_of(header),
    ensures
        spec_from_request(authorization, secret, now) == Err::<AuthenticatedUser, Failure>(
            Failure::InvalidToken,
        ),
{
}

/// A credential that does not verify is rejected. Take a bearer credential
/// whose token yields nothing under the verifying secret, because it was
/// signed under a secret that makes another key or for any other reason:
/// extraction fails as unauthorized, whenever it is tried.
pub proof fn law_unverified_credential_rejected(token: Seq<char>, secret: Seq<char>, now: u64)
    requires
        token_payload(token, secret) is None,
    ensures
        spec_from_request(Some(bearer_prefix() + token), secret, now) == Err::<
            AuthenticatedUser,
            Failure,
        >(Failure::InvalidToken),
        Failure::InvalidToken.spec_kind().spec_status() == 401,
{
    let header = bearer_prefix() + token;
    assert(header.skip(bearer_prefix().len() as int) =~= token);
}

impl AuthenticatedUser {
    /// Binds verified claims to a principal, given what reading the subject
    /// as an identifier gave: the principal has that identifier and the role of
    /// the claims; without an identifier the request is unauthorized.
    pub fn from_claims(claims: &Claims, subject: Option<u128>) -> (outcome: Result<
        AuthenticatedUser,
        Failure,
    >)
        ensures
            outcome == match subject {
                Some(id) => Ok(AuthenticatedUser { id, role: claims.role }),
                None => Err::<AuthenticatedUser, Failure>(Failure::InvalidToken),
            },
    {
        match subject {
            Some(id) => Ok(AuthenticatedUser { id, role: claims.role }),
            None => Err(Failure::InvalidToken),
        }
    }

    /// Extracts the principal of a request.
    ///
    /// `authorization` is the value of the `Authorization` header, `None`
    /// where the request has none or its value is not text.
    /// `configured_secret` is the shared secret as configured, and `now` the
    /// instant of the request in seconds since the Unix epoch.
    ///
    /// Whatever makes the request unauthorized, the failure is the same
    /// [`Failure::InvalidToken`]: the caller does not learn which test
    /// failed.
    pub fn from_request(
        authorization: Option<&str>,
        configured_secret: Option<&str>,
        now: u64,
    ) -> (outcome: Result<AuthenticatedUser, Failure>)
        ensures
            outcome == spec_from_request(
                match authorization {
                    Some(h) => Some(h@),
                    None => None,
                },
                spec_verification_secret(
                    match configured_secret {
                        Some(s) => Some(s@),
                        None => None,
                    },
                ),
                now,
            ),
    {
        let header = match authorization {
            Some(header) => header,
            None => return Err(Failure::InvalidToken),
        };
        let token = match bearer_token(header) {
            Some(token) => token,
            None => return Err(Failure::InvalidToken),
        };
        let secret = verification_secret(configured_secret);
        match decode(token, secret, now) {
            Ok(claims) => {
                let subject = parse_id(claims.sub.as_str());
                AuthenticatedUser::from_claims(&claims, subject)
            },
            Err(_) => Err(Failure::InvalidToken),
        }
    }
}

} // verus!

//! The identity service: registration, the credential issuer, and the
//! principal's own record.
//!
//! The store is not reached from here. A service sends each statement to its
//! store and hands the outcome to the function that decides what follows.

use vstd::prelude::*;
use crate::claims::Claims;
use crate::codec::{accepted_claims, encode, signed_token, token_payload, EncodingError};
use crate::failure::{Failure, FailureKind, Reply, StoreError};
use crate::gates::{spec_uniqueness_gate, uniqueness_gate};
use crate::password::{check_password, hash_password, password_matches};
use crate::principal::{
    bearer_prefix,
    id_text,
    spec_from_request,
    spec_bearer_token,
    write_id,
    AuthenticatedUser,
};
use crate::role::UserRole;

verus! {

/// How long a credential is honoured after it is issued: 24 hours, in seconds.
pub const TOKEN_LIFETIME: u64 = 86_400;

/// What a visitor sends to register.
#[derive(Debug, Clone, PartialEq, Eq)]
pub struct RegisterUser {
    pub username: String,
    pub password: String,
    pub email: String,
    pub first_name: String,
    pub last_name: String,
}

/// What a visitor sends to log in.
#[derive(Debug, Clone, PartialEq, Eq)]
pub struct LoginUser {
    pub username: String,
    pub password: String,
}

/// The record of a principal that registration asks the store to create.
#[derive(Debug, Clone, PartialEq, Eq)]
pub struct NewUser {
    pub username: String,
    pub password_hash: String,
    pub email: String,
    pub first_name: String,
    pub last_name: String,
    /// The role to start with. Registration sets it to [`UserRole::Student`].
    pub role: UserRole,
}

/// The record of a principal, as the store holds it.
#[derive(Debug, Clone, PartialEq, Eq)]
pub struct User {
    pub id: u128,
    pub username: String,
    pub email: String,
    pub first_name: String,
    pub last_name: String,
    /// The bcrypt hash of the password. It goes into the store and comes back
    /// from it; it is never part of a response.
    pub password_hash: String,
    pub role: UserRole,
    /// Creation time, in microseconds since the Unix epoch.
    pub created_at: i64,
}

/// What a response shows of a principal: the record without the password
/// hash.
#[derive(Debug, Clone, PartialEq, Eq)]
pub struct UserProfile {
    pub id: u128,
    pub username: String,
    pub email: String,
    pub first_name: String,
    pub last_name: String,
    pub role: UserRole,
    pub created_at: i64,
}

/// The body of a successful login.
#[derive(Debug, Clone, PartialEq, Eq)]
pub struct TokenResponse {
    pub token: String,
}

impl User {
    /// What a response shows of the record.
    pub open spec fn spec_profile(self) -> UserProfile {
        UserProfile {
            id: self.id,
            username: self.username,
            email: self.email,
            first_name: self.first_name,
            last_name: self.last_name,
            role: self.role,
            created_at: self.created_at,
        }
    }

    /// What a response shows of the record: every field but the password
    /// hash.
    pub fn profile(self) -> (profile: UserProfile)
        ensures
            profile == self.spec_profile(),
    {
        UserProfile {
            id: self.id,
            username: self.username,
            email: self.email,
            first_name: self.first_name,
            last_name: self.last_name,
            role: self.role,
            created_at: self.created_at,
        }
    }
}

/// The record to create for a registration, given what hashing the password
/// gave: the fields of the registration with the hash in place of the
/// password, and the role of a student. Without a hash nothing is created.
pub open spec fn spec_new_user(user_data: RegisterUser, hashed: Option<String>) -> Result<
    NewUser,
    Failure,
> {
    match hashed {
        Some(password_hash) => Ok(
            NewUser {
                username: user_data.username,
                password_hash,
                email: user_data.email,
                first_name: user_data.first_name,
                last_name: user_data.last_name,
                role: UserRole::Student,
            },
        ),
        None => Err(Failure::HashingFailed),
    }
}

/// The record to create for a registration, given what hashing the password
/// gave.
pub fn new_user(user_data: RegisterUser, hashed: Option<String>) -> (outcome: Result<
    NewUser,
    Failure,
>)
    ensures
        outcome == spec_new_user(user_data, hashed),
{
    match hashed {
        Some(password_hash) => Ok(
            NewUser {
                username: user_data.username,
                password_hash,
                email: user_data.email,
                first_name: user_data.first_name,
                last_name: user_data.last_name,
                role: UserRole::Student,
            },
        ),
        None => Err(Failure::HashingFailed),
    }
}

/// First step of registration: hashes the password and says which record to
/// create.
///
/// The hash is salted at random, so it is not a function of the password.
/// What holds of every hash is that the password of the registration checks
/// against it.
pub fn register(user_data: RegisterUser) -> (outcome: Result<NewUser, Failure>)
    ensures
        match outcome {
            Ok(created) => {
                &&& spec_new_user(user_data, Some(created.password_hash)) == Ok::<
                    NewUser,
                    Failure,
                >(created)
                &&& password_matches(user_data.password@, created.password_hash@) == Some(true)
            },
            Err(failure) => failure == Failure::HashingFailed,
        },
{
    let hashed = hash_password(user_data.password.as_str());
    new_user(user_data, hashed)
}

/// Last step of registration: the response, given what the store said of the
/// record to create. A violated uniqueness rule means that the username is
/// taken; any other failure of the store is internal.
pub fn registered(stored: Result<User, StoreError>) -> (reply: Reply<UserProfile>)
    ensures
        reply == match stored {
            Ok(user) => Reply::Created(user.spec_profile()),
            Err(StoreError::UniqueViolation) => Reply::Failed(Failure::UsernameTaken),
            Err(_) => Reply::Failed(Failure::UserNotCreated),
        },
        stored matches Err(error) ==> reply matches Reply::Failed(failure) && failure.spec_kind()
            == spec_uniqueness_gate(error),
{
    match stored {
        Ok(user) => Reply::Created(user.profile()),
        Err(error) => match uniqueness_gate(error) {
            FailureKind::Conflict => Reply::Failed(Failure::UsernameTaken),
            _ => Reply::Failed(Failure::UserNotCreated),
        },
    }
}

/// The principal that logs in, given what the store found for the username.
/// An unknown username is answered as a wrong password is.
pub fn known_user(found: Result<Option<User>, StoreError>) -> (outcome: Result<User, Failure>)
    ensures
        outcome == match found {
            Ok(Some(user)) => Ok::<User, Failure>(user),
            Ok(None) => Err(Failure::InvalidCredentials),
            Err(_) => Err(Failure::LookupFailed),
        },
{
    match found {
        Ok(Some(user)) => Ok(user),
        Ok(None) => Err(Failure::InvalidCredentials),
        Err(_) => Err(Failure::LookupFailed),
    }
}

/// Whether login goes on, given what checking the password against the stored
/// hash gave.
pub fn password_accepted(checked: Option<bool>) -> (outcome: Result<(), Failure>)
    ensures
        outcome == match checked {
            Some(true) => Ok::<(), Failure>(()),
            Some(false) => Err(Failure::InvalidCredentials),
            None => Err(Failure::PasswordCheckFailed),
        },
{
    match checked {
        Some(true) => Ok(()),
        Some(false) => Err(Failure::InvalidCredentials),
        None => Err(Failure::PasswordCheckFailed),
    }
}

/// The expiry of a credential issued at `now`, where the machine can hold it.
pub open spec fn spec_expiry(now: u64) -> Option<usize> {
    if now + TOKEN_LIFETIME <= usize::MAX {
        Some((now + TOKEN_LIFETIME) as usize)
    } else {
        None
    }
}

/// The claims of a credential issued at `now` to the principal with the given
/// subject and role: they expire [`TOKEN_LIFETIME`] seconds later. There are
/// none where the machine cannot hold that instant.
pub fn claims_issued(subject: String, role: UserRole, now: u64) -> (claims: Option<Claims>)
    ensures
        claims == match spec_expiry(now) {
            Some(exp) => Some(Claims { sub: subject, role, exp }),
            None => None,
        },
{
    if now > u64::MAX - TOKEN_LIFETIME {
        return None;
    }
    let exp = now + TOKEN_LIFETIME;
    if exp > usize::MAX as u64 {
        return None;
    }
    Some(Claims { sub: subject, role, exp: exp as usize })
}

/// The response to a login whose password was accepted, given what signing
/// the claims gave.
pub fn token_reply(signed: Result<String, EncodingError>) -> (reply: Reply<TokenResponse>)
    ensures
        reply == match signed {
            Ok(token) => Reply::Success(TokenResponse { token }),
            Err(_) => Reply::Failed(Failure::TokenNotCreated),
        },
{
    match signed {
        Ok(token) => Reply::Success(TokenResponse { token }),
        Err(_) => Reply::Failed(Failure::TokenNotCreated),
    }
}

/// What a login ends in: the token issued, or the failure.
pub open spec fn spec_login(
    found: Result<Option<User>, StoreError>,
    password: Seq<char>,
    secret: Seq<char>,
    now: u64,
) -> Result<Seq<char>, Failure> {
    match found {
        Err(_) => Err(Failure::LookupFailed),
        Ok(None) => Err(Failure::InvalidCredentials),
        Ok(Some(user)) => match password_matches(password, user.password_hash@) {
            None => Err(Failure::PasswordCheckFailed),
            Some(false) => Err(Failure::InvalidCredentials),
            Some(true) => match spec_expiry(now) {
                None => Err(Failure::TokenNotCreated),
                Some(exp) => match signed_token(
                    id_text(user.id),
                    user.role.spec_name(),
                    exp as u64,
                    secret,
                ) {
                    Some(token) => Ok(token),
                    None => Err(Failure::TokenNotCreated),
                },
            },
        },
    }
}

/// Whether a login is owed a token: the store knows the username, the
/// password checks against the stored hash, and the machine can hold the
/// expiry.
pub open spec fn token_owed(
    found: Result<Option<User>, StoreError>,
    password: Seq<char>,
    now: u64,
) -> bool {
    match found {
        Ok(Some(user)) => password_matches(password, user.password_hash@) == Some(true)
            && spec_expiry(now) is Some,
        _ => false,
    }
}

/// The credential issuer: answers a login, given what the store found for
/// the username.
///
/// An unknown username and a wrong password end in the same
/// [`Failure::InvalidCredentials`]. Where the password checks against the
/// stored hash, the claims name the principal's identifier as subject, carry
/// the principal's role, and expire [`TOKEN_LIFETIME`] seconds after `now`.
///
/// A token that is issued identifies the principal: presented as a bearer
/// credential at any instant before its expiry, and verified under the same
/// secret, it is extracted to the principal's identifier and role.
///
/// Success is owed: where the store knows the username, the password
/// checks against the stored hash, and the machine can hold the expiry, a
/// token is issued.
///
/// `secret` is the configured secret. Issuing has no fallback: a service that
/// has no secret configured must not come this far.
pub fn login(
    found: Result<Option<User>, StoreError>,
    user_data: &LoginUser,
    secret: &str,
    now: u64,
) -> (reply: Reply<TokenResponse>)
    ensures
        match spec_login(found, user_data.password@, secret@, now) {
            Ok(token) => reply matches Reply::Success(body) && body.token@ == token,
            Err(failure) => reply == Reply::<TokenResponse>::Failed(failure),
        },
        reply is Success <==> token_owed(found, user_data.password@, now),
        reply matches Reply::Success(body) ==> found matches Ok(Some(user)) && forall|at: u64|
            at < now + TOKEN_LIFETIME ==> #[trigger] spec_from_request(
                Some(bearer_prefix() + body.token@),
                secret@,
                at,
            ) == Ok::<AuthenticatedUser, Failure>(
                AuthenticatedUser { id: user.id, role: user.role },
            ),
{
    let user = match known_user(found) {
        Ok(user) => user,
        Err(failure) => return Reply::Failed(failure),
    };
    let checked = check_password(user_data.password.as_str(), user.password_hash.as_str());
    match password_accepted(checked) {
        Ok(()) => {},
        Err(failure) => return Reply::Failed(failure),
    }
    let claims = match claims_issued(write_id(user.id), user.role, now) {
        Some(claims) => claims,
        None => return Reply::Failed(Failure::TokenNotCreated),
    };
    let signed = encode(&claims, secret);
    proof {
        if signed is Ok {
            let token = signed->Ok_0;
            let header = bearer_prefix() + token@;
            assert(header.skip(bearer_prefix().len() as int) =~= token@);
            assert(spec_bearer_token(header) == Some(token@));
            assert forall|at: u64| at < now + TOKEN_LIFETIME implies #[trigger] spec_from_request(
                Some(header),
                secret@,
                at,
            ) == Ok::<AuthenticatedUser, Failure>(
                AuthenticatedUser { id: user.id, role: user.role },
            ) by {
                assert(accepted_claims(token_payload(token@, secret@), at) == Some(claims@));
            }
        }
    }
    token_reply(signed)
}

/// A wrong password is answered as an unknown username is. Take a login
/// for a principal whom the store knows, with a password that does not check
/// against the stored hash, and a login for a username that the store does not
/// know: both end in the same failure, and so in the same status and body.
pub proof fn law_wrong_password_as_unknown_username(
    user: User,
    wrong_password: Seq<char>,
    any_password: Seq<char>,
    secret: Seq<char>,
    now: u64,
)
    requires
        password_matches(wrong_password, user.password_hash@) == Some(false),
    ensures
        spec_login(Ok(Some(user)), wrong_password, secret, now) == spec_login(
            Ok(None),
            any_password,
            secret,
            now,
        ),
        spec_login(Ok(None), any_password, secret, now) == Err::<Seq<char>, Failure>(
            Failure::InvalidCredentials,
        ),
{
}

/// The response to a principal who asks for the own record, given what the
/// store found for the principal's identifier. A record that is not there is
/// not found; any other failure of the store is internal.
pub fn get_me(found: Result<User, StoreError>) -> (reply: Reply<UserProfile>)
    ensures
        reply == match found {
            Ok(user) => Reply::Success(user.spec_profile()),
            Err(StoreError::RowNotFound) => Reply::Failed(Failure::UserNotFound),
            Err(_) => Reply::Failed(Failure::UserNotFetched),
        },
{
    match found {
        Ok(user) => Reply::Success(user.profile()),
        Err(StoreError::RowNotFound) => Reply::Failed(Failure::UserNotFound),
        Err(_) => Reply::Failed(Failure::UserNotFetched),
    }
}

} // verus!

//! The assertion that a credential carries about its bearer.

use vstd::prelude::*;
use crate::role::UserRole;

verus! {

/// The claims of a credential: who the bearer is, which role the bearer held
/// when the credential was issued, and the instant after which the credential
/// is no longer honoured.
///
/// The role is the one written at issuance. It is never looked up again while
/// the credential is valid, so a change of role reaches a principal with the
/// next credential issued, not before.
#[derive(Debug, Clone, PartialEq, Eq)]
pub struct Claims {
    /// Identifier of the principal, as text.
    pub sub: String,
    /// Role of the principal at issuance.
    pub role: UserRole,
    /// Expiry, in seconds since the Unix epoch.
    pub exp: usize,
}

/// Claims as mathematical values.
pub struct ClaimsView {
    pub sub: Seq<char>,
    pub role: UserRole,
    pub exp: nat,
}

impl View for Claims {
    type V = ClaimsView;

    open spec fn view(&self) -> ClaimsView {
        ClaimsView { sub: self.sub@, role: self.role, exp: self.exp as nat }
    }
}

} // verus!

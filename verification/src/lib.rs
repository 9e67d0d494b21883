//! Authentication and authorization core shared by the identity, catalog and
//! enrollment services: bearer credentials, the principal they resolve to, and
//! the gates that decide what that principal may do.

pub mod catalog;
pub mod claims;
pub mod codec;
pub mod enrollment;
pub mod failure;
pub mod gates;
pub mod identity;
pub mod middleware;
pub mod password;
pub mod principal;
pub mod role;
pub mod text;

pub use crate::claims::Claims;
pub use crate::principal::AuthenticatedUser;
pub use crate::role::UserRole;

//! The closed set of roles a principal can hold, and the names under which a
//! role travels inside a credential.

use vstd::prelude::*;
use crate::text::same_text;

verus! {

/// Role of a principal. Roles are compared for equality only: no role is
/// "greater" than another, and `Admin` is granted its bypass explicitly by each
/// gate.
#[derive(Debug, Clone, Copy, PartialEq, Eq, Structural)]
pub enum UserRole {
    Student,
    Instructor,
    Admin,
}

impl UserRole {
    /// The name of the role as it is written in a credential.
    pub open spec fn spec_name(self) -> Seq<char> {
        match self {
            UserRole::Student => "student"@,
            UserRole::Instructor => "instructor"@,
            UserRole::Admin => "admin"@,
        }
    }

    /// The role that a name stands for, if it is the name of a role.
    pub open spec fn spec_from_name(name: Seq<char>) -> Option<UserRole> {
        if name == "student"@ {
            Some(UserRole::Student)
        } else if name == "instructor"@ {
            Some(UserRole::Instructor)
        } else if name == "admin"@ {
            Some(UserRole::Admin)
        } else {
            None
        }
    }

    /// The name of the role as it is written in a credential.
    pub fn name(&self) -> (name: &'static str)
        ensures
            name@ == self.spec_name(),
    {
        match self {
            UserRole::Student => "student",
            UserRole::Instructor => "instructor",
            UserRole::Admin => "admin",
        }
    }

    /// The role that a name stands for, if it is the name of a role. Names
    /// are matched exactly, in lower case.
    pub fn from_name(name: &str) -> (role: Option<UserRole>)
        ensures
            role == UserRole::spec_from_name(name@),
    {
        if same_text(name, "student") {
            Some(UserRole::Student)
        } else if same_text(name, "instructor") {
            Some(UserRole::Instructor)
        } else if same_text(name, "admin") {
            Some(UserRole::Admin)
        } else {
            None
        }
    }
}

/// Every role is recovered from its own name.
pub proof fn lemma_role_name_round_trip(role: UserRole)
    ensures
        UserRole::spec_from_name(role.spec_name()) == Some(role),
{
    reveal_strlit("student");
    reveal_strlit("instructor");
    reveal_strlit("admin");
    if role == UserRole::Instructor {
        assert("instructor"@.len() == 10);
        assert("student"@.len() == 7);
    }
    if role == UserRole::Admin {
        assert("admin"@.len() == 5);
        assert("student"@.len() == 7);
        assert("instructor"@.len() == 10);
    }
}

} // verus!

//! The middleware that stands in front of a service and knows which roles
//! the service asks for.

use vstd::prelude::*;

verus! {

/// A role that a service may ask for.
#[derive(Debug, Clone, Copy, PartialEq, Eq, Structural)]
pub enum Role {
    Student,
    Instructor,
    Admin,
}

/// The factory of the middleware: holds the roles asked for, and wraps each
/// service it is given.
pub struct JwtMiddleware {
    required_roles: Vec<Role>,
}

/// A service wrapped by the middleware, with the roles asked for.
pub struct JwtMiddlewareService<S> {
    service: S,
    required_roles: Vec<Role>,
}

impl JwtMiddleware {
    /// The roles asked for, in the order given.
    pub closed spec fn spec_required_roles(&self) -> Seq<Role> {
        self.required_roles@
    }

    /// A middleware that asks for the given roles.
    pub fn new(required_roles: Vec<Role>) -> (middleware: Self)
        ensures
            middleware.spec_required_roles() == required_roles@,
    {
        Self { required_roles }
    }

    /// The roles asked for, in the order given.
    pub fn required_roles(&self) -> (roles: &Vec<Role>)
        ensures
            roles@ == self.spec_required_roles(),
    {
        &self.required_roles
    }

    /// Wraps a service: the result holds the service, and asks for the roles
    /// of the middleware.
    pub fn new_transform<S>(&self, service: S) -> (wrapped: JwtMiddlewareService<S>)
        ensures
            wrapped.spec_service() == service,
            wrapped.spec_required_roles() == self.spec_required_roles(),
    {
        let mut required_roles: Vec<Role> = Vec::new();
        let mut i: usize = 0;
        while i < self.required_roles.len()
            invariant
                i <= self.required_roles@.len(),
                required_roles@ == self.required_roles@.take(i as int),
            decreases self.required_roles@.len() - i,
        {
            required_roles.push(self.required_roles[i]);
            i += 1;
            assert(self.required_roles@.take(i as int) =~= self.required_roles@.take(i - 1).push(
                self.required_roles@[i - 1],
            ));
        }
        assert(self.required_roles@.take(i as int) =~= self.required_roles@);
        JwtMiddlewareService { service, required_roles }
    }
}

impl<S> JwtMiddlewareService<S> {
    /// The service that is wrapped.
    pub closed spec fn spec_service(&self) -> S {
        self.service
    }

    /// The roles asked for, in the order given.
    pub closed spec fn spec_required_roles(&self) -> Seq<Role> {
        self.required_roles@
    }

    /// The service that is wrapped.
    pub fn service(&self) -> (service: &S)
        ensures
            *service == self.spec_service(),
    {
        &self.service
    }

    /// The roles asked for, in the order given.
    pub fn required_roles(&self) -> (roles: &Vec<Role>)
        ensures
            roles@ == self.spec_required_roles(),
    {
        &self.required_roles
    }
}

} // verus!

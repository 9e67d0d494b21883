//! The enrollment service: a principal's enrollments in courses.
//!
//! The store is not reached from here. A service sends each statement to its
//! store and hands the outcome to the function that decides what follows.

use vstd::prelude::*;
use crate::failure::{Failure, FailureKind, Reply, StoreError};
use crate::gates::{self_scope, spec_uniqueness_gate, uniqueness_gate};
use crate::principal::AuthenticatedUser;

verus! {

/// What a principal sends to enroll in a course.
#[derive(Debug, Clone, Copy, PartialEq, Eq, Structural)]
pub struct EnrollmentRequest {
    pub course_id: u128,
}

/// The enrollment that a request asks the store to add.
#[derive(Debug, Clone, Copy, PartialEq, Eq, Structural)]
pub struct NewEnrollment {
    pub user_id: u128,
    pub course_id: u128,
}

/// An enrollment, as the store holds it.
#[derive(Debug, Clone, Copy, PartialEq, Eq, Structural)]
pub struct Enrollment {
    pub user_id: u128,
    pub course_id: u128,
    /// Time of enrollment, in microseconds since the Unix epoch.
    pub enrollment_date: i64,
}

/// A course that a principal is enrolled in.
#[derive(Debug, Clone, PartialEq, Eq)]
pub struct EnrolledCourseDetails {
    pub course_id: u128,
    pub title: String,
    pub description: Option<String>,
    /// Time of enrollment, in microseconds since the Unix epoch.
    pub enrollment_date: i64,
}

/// First step of enrolling: the enrollment to add. A principal enrolls
/// nobody but the principal.
pub fn enroll_in_course(user: &AuthenticatedUser, enrollment_data: &EnrollmentRequest) -> (added:
    NewEnrollment)
    ensures
        added == (NewEnrollment { user_id: user.id, course_id: enrollment_data.course_id }),
{
    NewEnrollment { user_id: self_scope(user), course_id: enrollment_data.course_id }
}

/// Last step of enrolling: the response, given what the store said. A
/// violated uniqueness rule means that the principal is enrolled already; any
/// other failure of the store is internal.
pub fn enrolled(stored: Result<Enrollment, StoreError>) -> (reply: Reply<Enrollment>)
    ensures
        reply == match stored {
            Ok(enrollment) => Reply::Created(enrollment),
            Err(StoreError::UniqueViolation) => Reply::Failed(Failure::AlreadyEnrolled),
            Err(_) => Reply::Failed(Failure::EnrollmentFailed),
        },
        stored matches Err(error) ==> reply matches Reply::Failed(failure) && failure.spec_kind()
            == spec_uniqueness_gate(error),
{
    match stored {
        Ok(enrollment) => Reply::Created(enrollment),
        Err(error) => match uniqueness_gate(error) {
            FailureKind::Conflict => Reply::Failed(Failure::AlreadyEnrolled),
            _ => Reply::Failed(Failure::EnrollmentFailed),
        },
    }
}

/// The response to a principal who asks for the own enrollments, given what
/// the store returned for the principal's identifier.
pub fn get_my_enrollments(fetched: Result<Vec<EnrolledCourseDetails>, StoreError>) -> (reply: Reply<
    Vec<EnrolledCourseDetails>,
>)
    ensures
        reply == match fetched {
            Ok(courses) => Reply::Success(courses),
            Err(_) => Reply::Failed(Failure::EnrollmentsNotFetched),
        },
{
    match fetched {
        Ok(courses) => Reply::Success(courses),
        Err(_) => Reply::Failed(Failure::EnrollmentsNotFetched),
    }
}

} // verus!

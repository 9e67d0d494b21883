//! The failures a request can end in, and the responses that carry them.

use vstd::prelude::*;

verus! {

/// The kinds of failure, by how they are surfaced.
#[derive(Debug, Clone, Copy, PartialEq, Eq, Structural)]
pub enum FailureKind {
    /// The credential is missing, malformed, forged or expired.
    Verification,
    /// Username or password is wrong.
    Auth,
    /// The principal is known but may not do this.
    Authorization,
    /// A uniqueness rule of the store was violated.
    Conflict,
    /// The resource does not exist.
    NotFound,
    /// Anything unexpected. The caller is told nothing of the cause.
    Internal,
}

impl FailureKind {
    /// The HTTP status under which the kind is surfaced.
    pub open spec fn spec_status(self) -> u16 {
        match self {
            FailureKind::Verification => 401,
            FailureKind::Auth => 401,
            FailureKind::Authorization => 403,
            FailureKind::NotFound => 404,
            FailureKind::Conflict => 409,
            FailureKind::Internal => 500,
        }
    }

    /// The HTTP status under which the kind is surfaced.
    pub fn status(&self) -> (status: u16)
        ensures
            status == self.spec_status(),
    {
        match self {
            FailureKind::Verification => 401,
            FailureKind::Auth => 401,
            FailureKind::Authorization => 403,
            FailureKind::NotFound => 404,
            FailureKind::Conflict => 409,
            FailureKind::Internal => 500,
        }
    }
}

/// Every failure that a request can end in. Each is surfaced with the status
/// of its kind and a fixed body; two requests that end in the same failure get
/// the same response.
#[derive(Debug, Clone, Copy, PartialEq, Eq, Structural)]
pub enum Failure {
    /// No credential, or one that failed verification.
    InvalidToken,
    /// Unknown username or wrong password; which of the two is not told.
    InvalidCredentials,
    /// The principal is neither instructor nor admin.
    NotInstructorOrAdmin,
    /// The principal neither owns the course to update nor is admin.
    MayNotUpdateCourse,
    /// The principal neither owns the course to delete nor is admin.
    MayNotDeleteCourse,
    /// The username is taken.
    UsernameTaken,
    /// The principal is enrolled in the course already.
    AlreadyEnrolled,
    /// No principal with this identifier.
    UserNotFound,
    /// No course with this identifier.
    CourseNotFound,
    /// The password could not be hashed.
    HashingFailed,
    /// The store failed while the principal was created.
    UserNotCreated,
    /// The store failed while the principal was looked up.
    LookupFailed,
    /// The store failed while the principal's own record was read.
    UserNotFetched,
    /// The stored hash could not be read.
    PasswordCheckFailed,
    /// The credential could not be made.
    TokenNotCreated,
    /// The store failed while the course was created.
    CourseNotCreated,
    /// The store failed while the courses were listed.
    CoursesNotFetched,
    /// The store failed while the course was read.
    CourseNotFetched,
    /// The store failed while the course was updated.
    CourseNotUpdated,
    /// The store failed while the enrollment was created.
    EnrollmentFailed,
    /// The store failed while the enrollments were listed.
    EnrollmentsNotFetched,
    /// The store failed, and the response has no body.
    Unexpected,
}

impl Failure {
    /// The kind of the failure.
    pub open spec fn spec_kind(self) -> FailureKind {
        match self {
            Failure::InvalidToken => FailureKind::Verification,
            Failure::InvalidCredentials => FailureKind::Auth,
            Failure::NotInstructorOrAdmin
            | Failure::MayNotUpdateCourse
            | Failure::MayNotDeleteCourse => FailureKind::Authorization,
            Failure::UsernameTaken | Failure::AlreadyEnrolled => FailureKind::Conflict,
            Failure::UserNotFound | Failure::CourseNotFound => FailureKind::NotFound,
            _ => FailureKind::Internal,
        }
    }

    /// The body of the response that surfaces the failure.
    pub open spec fn spec_message(self) -> Seq<char> {
        match self {
            Failure::InvalidToken => "Invalid or missing token"@,
            Failure::InvalidCredentials => "Invalid username or password"@,
            Failure::NotInstructorOrAdmin => "Only instructors or admins can create courses"@,
            Failure::MayNotUpdateCourse => "You are not authorized to update this course"@,
            Failure::MayNotDeleteCourse => "You are not authorized to delete this course"@,
            Failure::UsernameTaken => "Username already exists"@,
            Failure::AlreadyEnrolled => "User is already enrolled in this course"@,
            Failure::UserNotFound => "User not found"@,
            Failure::CourseNotFound => "Course not found"@,
            Failure::HashingFailed => "Error hashing password"@,
            Failure::UserNotCreated => "Failed to create user"@,
            Failure::LookupFailed => "Something went wrong"@,
            Failure::UserNotFetched => "Failed to fetch user"@,
            Failure::PasswordCheckFailed => "Error verifying password"@,
            Failure::TokenNotCreated => "Failed to create token"@,
            Failure::CourseNotCreated => "Failed to create course"@,
            Failure::CoursesNotFetched => "Failed to fetch courses"@,
            Failure::CourseNotFetched => "Failed to fetch course"@,
            Failure::CourseNotUpdated => "Failed to update course"@,
            Failure::EnrollmentFailed => "Failed to enroll in course"@,
            Failure::EnrollmentsNotFetched => "Failed to retrieve your enrollments"@,
            Failure::Unexpected => ""@,
        }
    }

    /// The kind of the failure.
    pub fn kind(&self) -> (kind: FailureKind)
        ensures
            kind == self.spec_kind(),
    {
        match self {
            Failure::InvalidToken => FailureKind::Verification,
            Failure::InvalidCredentials => FailureKind::Auth,
            Failure::NotInstructorOrAdmin
            | Failure::MayNotUpdateCourse
            | Failure::MayNotDeleteCourse => FailureKind::Authorization,
            Failure::UsernameTaken | Failure::AlreadyEnrolled => FailureKind::Conflict,
            Failure::UserNotFound | Failure::CourseNotFound => FailureKind::NotFound,
            _ => FailureKind::Internal,
        }
    }

    /// The HTTP status of the response that surfaces the failure.
    pub fn status(&self) -> (status: u16)
        ensures
            status == self.spec_kind().spec_status(),
    {
        self.kind().status()
    }

    /// The body of the response that surfaces the failure.
    pub fn message(&self) -> (message: &'static str)
        ensures
            message@ == self.spec_message(),
    {
        match self {
            Failure::InvalidToken => "Invalid or missing token",
            Failure::InvalidCredentials => "Invalid username or password",
            Failure::NotInstructorOrAdmin => "Only instructors or admins can create courses",
            Failure::MayNotUpdateCourse => "You are not authorized to update this course",
            Failure::MayNotDeleteCourse => "You are not authorized to delete this course",
            Failure::UsernameTaken => "Username already exists",
            Failure::AlreadyEnrolled => "User is already enrolled in this course",
            Failure::UserNotFound => "User not found",
            Failure::CourseNotFound => "Course not found",
            Failure::HashingFailed => "Error hashing password",
            Failure::UserNotCreated => "Failed to create user",
            Failure::LookupFailed => "Something went wrong",
            Failure::UserNotFetched => "Failed to fetch user",
            Failure::PasswordCheckFailed => "Error verifying password",
            Failure::TokenNotCreated => "Failed to create token",
            Failure::CourseNotCreated => "Failed to create course",
            Failure::CoursesNotFetched => "Failed to fetch courses",
            Failure::CourseNotFetched => "Failed to fetch course",
            Failure::CourseNotUpdated => "Failed to update course",
            Failure::EnrollmentFailed => "Failed to enroll in course",
            Failure::EnrollmentsNotFetched => "Failed to retrieve your enrollments",
            Failure::Unexpected => "",
        }
    }
}

/// What a statement sent to the store failed with, as far as a handler tells
/// failures apart.
#[derive(Debug, Clone, Copy, PartialEq, Eq, Structural)]
pub enum StoreError {
    /// A uniqueness rule of the store was violated.
    UniqueViolation,
    /// The statement was to return a row and found none.
    RowNotFound,
    /// Any other failure.
    Other,
}

/// The response to a request: success with a value for the body, success
/// without a body, or a failure.
#[derive(Debug, Clone, PartialEq, Eq)]
pub enum Reply<T> {
    /// 200, with the value as body.
    Success(T),
    /// 201, with the value as body.
    Created(T),
    /// 204, without a body.
    NoContent,
    /// The status and body of the failure.
    Failed(Failure),
}

impl<T> Reply<T> {
    /// The HTTP status of the response.
    pub open spec fn spec_status(self) -> u16 {
        match self {
            Reply::Success(_) => 200,
            Reply::Created(_) => 201,
            Reply::NoContent => 204,
            Reply::Failed(failure) => failure.spec_kind().spec_status(),
        }
    }

    /// The HTTP status of the response.
    pub fn status(&self) -> (status: u16)
        ensures
            status == self.spec_status(),
    {
        match self {
            Reply::Success(_) => 200,
            Reply::Created(_) => 201,
            Reply::NoContent => 204,
            Reply::Failed(failure) => failure.status(),
        }
    }
}

} // verus!

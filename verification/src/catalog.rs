//! The catalog service: courses, and who may create, change and delete them.
//!
//! The store is not reached from here. A service sends each statement to its
//! store and hands the outcome to the function that decides what follows.

use vstd::prelude::*;
use crate::failure::{Failure, Reply, StoreError};
use crate::gates::{creation_gate, may_create, ownership_gate, spec_ownership_gate, Decision};
use crate::principal::AuthenticatedUser;
use crate::role::UserRole;

verus! {

/// What an instructor sends to create a course.
#[derive(Debug, Clone, PartialEq, Eq)]
pub struct CreateCourse {
    pub title: String,
    pub description: Option<String>,
}

/// What an owner sends to change a course.
#[derive(Debug, Clone, PartialEq, Eq)]
pub struct UpdateCourse {
    /// The new title; the course keeps its title where there is none.
    pub title: Option<String>,
    /// The new description; the course loses its description where there is
    /// none.
    pub description: Option<String>,
}

/// A course, as the store holds it.
#[derive(Debug, Clone, PartialEq, Eq)]
pub struct Course {
    pub id: u128,
    pub title: String,
    pub description: Option<String>,
    /// The principal who created the course, and owns it.
    pub instructor_id: u128,
    /// Creation time, in microseconds since the Unix epoch.
    pub created_at: i64,
    /// Time of the last change, in microseconds since the Unix epoch.
    pub updated_at: i64,
}

/// The course that creation asks the store to add.
#[derive(Debug, Clone, PartialEq, Eq)]
pub struct NewCourse {
    pub title: String,
    pub description: Option<String>,
    pub instructor_id: u128,
}

/// The change that an update asks the store to make.
#[derive(Debug, Clone, PartialEq, Eq)]
pub struct CourseChange {
    pub course_id: u128,
    pub title: String,
    pub description: Option<String>,
}

/// The deletion that a request asks the store to make.
#[derive(Debug, Clone, Copy, PartialEq, Eq, Structural)]
pub struct CourseDeletion {
    pub course_id: u128,
}

/// First step of creating a course: the creation gate, and the course to add.
/// The principal who creates the course owns it.
pub fn create_course(user: &AuthenticatedUser, course_data: CreateCourse) -> (outcome: Result<
    NewCourse,
    Failure,
>)
    ensures
        outcome == if may_create(user.role) {
            Ok::<NewCourse, Failure>(
                NewCourse {
                    title: course_data.title,
                    description: course_data.description,
                    instructor_id: user.id,
                },
            )
        } else {
            Err(Failure::NotInstructorOrAdmin)
        },
{
    match creation_gate(user) {
        Decision::Permit => Ok(
            NewCourse {
                title: course_data.title,
                description: course_data.description,
                instructor_id: user.id,
            },
        ),
        _ => Err(Failure::NotInstructorOrAdmin),
    }
}

/// Last step of creating a course: the response, given what the store said.
pub fn course_created(stored: Result<Course, StoreError>) -> (reply: Reply<Course>)
    ensures
        reply == match stored {
            Ok(course) => Reply::Created(course),
            Err(_) => Reply::Failed(Failure::CourseNotCreated),
        },
{
    match stored {
        Ok(course) => Reply::Created(course),
        Err(_) => Reply::Failed(Failure::CourseNotCreated),
    }
}

/// The response to a request for all courses, given what the store returned.
pub fn get_courses(fetched: Result<Vec<Course>, StoreError>) -> (reply: Reply<Vec<Course>>)
    ensures
        reply == match fetched {
            Ok(courses) => Reply::Success(courses),
            Err(_) => Reply::Failed(Failure::CoursesNotFetched),
        },
{
    match fetched {
        Ok(courses) => Reply::Success(courses),
        Err(_) => Reply::Failed(Failure::CoursesNotFetched),
    }
}

/// The response to a request for one course, given what the store returned.
pub fn get_course_by_id(fetched: Result<Course, StoreError>) -> (reply: Reply<Course>)
    ensures
        reply == match fetched {
            Ok(course) => Reply::Success(course),
            Err(StoreError::RowNotFound) => Reply::Failed(Failure::CourseNotFound),
            Err(_) => Reply::Failed(Failure::CourseNotFetched),
        },
{
    match fetched {
        Ok(course) => Reply::Success(course),
        Err(StoreError::RowNotFound) => Reply::Failed(Failure::CourseNotFound),
        Err(_) => Reply::Failed(Failure::CourseNotFetched),
    }
}

/// The owner of the course that the store found, `None` where it found none.
pub open spec fn owner_of(found: Option<Course>) -> Option<u128> {
    match found {
        Some(course) => Some(course.instructor_id),
        None => None,
    }
}

/// The change that an update makes to a course: the title of the update, or
/// the course's own where the update has none; and the description of the
/// update, also where it has none.
pub open spec fn spec_change(course: Course, update_data: UpdateCourse) -> CourseChange {
    CourseChange {
        course_id: course.id,
        title: match update_data.title {
            Some(title) => title,
            None => course.title,
        },
        description: update_data.description,
    }
}

/// What an update ends in before the store is written: the change to make, or
/// the failure.
pub open spec fn spec_update_course_by_id(
    user: AuthenticatedUser,
    found: Result<Option<Course>, StoreError>,
    update_data: UpdateCourse,
) -> Result<CourseChange, Failure> {
    match found {
        Err(_) => Err(Failure::Unexpected),
        Ok(found) => match spec_ownership_gate(user, owner_of(found)) {
            Decision::NotFound => Err(Failure::CourseNotFound),
            Decision::Forbidden => Err(Failure::MayNotUpdateCourse),
            Decision::Permit => Ok(spec_change(found->Some_0, update_data)),
        },
    }
}

/// First steps of updating a course, given what the store found for its
/// identifier: the ownership gate, and the change to make. A course that does
/// not exist is not found; one that exists may be changed by its owner and by
/// an admin.
pub fn update_course_by_id(
    user: &AuthenticatedUser,
    found: Result<Option<Course>, StoreError>,
    update_data: UpdateCourse,
) -> (outcome: Result<CourseChange, Failure>)
    ensures
        outcome == spec_update_course_by_id(*user, found, update_data),
{
    let found = match found {
        Ok(found) => found,
        Err(_) => return Err(Failure::Unexpected),
    };
    let owner_id = match &found {
        Some(course) => Some(course.instructor_id),
        None => None,
    };
    match ownership_gate(user, owner_id) {
        Decision::NotFound => Err(Failure::CourseNotFound),
        Decision::Forbidden => Err(Failure::MayNotUpdateCourse),
        Decision::Permit => {
            match found {
                Some(course) => {
                    let title = match update_data.title {
                        Some(title) => title,
                        None => course.title,
                    };
                    Ok(
                        CourseChange {
                            course_id: course.id,
                            title,
                            description: update_data.description,
                        },
                    )
                },
                None => Err(Failure::CourseNotFound),
            }
        },
    }
}

/// Last step of updating a course: the response, given what the store said.
pub fn course_updated(stored: Result<Course, StoreError>) -> (reply: Reply<Course>)
    ensures
        reply == match stored {
            Ok(course) => Reply::Success(course),
            Err(_) => Reply::Failed(Failure::CourseNotUpdated),
        },
{
    match stored {
        Ok(course) => Reply::Success(course),
        Err(_) => Reply::Failed(Failure::CourseNotUpdated),
    }
}

/// What a deletion ends in before the store is written: the deletion to
/// make, or the failure.
pub open spec fn spec_delete_course_by_id(
    user: AuthenticatedUser,
    found: Result<Option<Course>, StoreError>,
) -> Result<CourseDeletion, Failure> {
    match found {
        Err(_) => Err(Failure::Unexpected),
        Ok(found) => match spec_ownership_gate(user, owner_of(found)) {
            Decision::NotFound => Err(Failure::CourseNotFound),
            Decision::Forbidden => Err(Failure::MayNotDeleteCourse),
            Decision::Permit => Ok(CourseDeletion { course_id: found->Some_0.id }),
        },
    }
}

/// First steps of deleting a course, given what the store found for its
/// identifier: the ownership gate, and the deletion to make. A course that
/// does not exist is not found; one that exists may be deleted by its owner
/// and by an admin, and is forbidden to everyone else, for whom nothing is
/// deleted.
pub fn delete_course_by_id(
    user: &AuthenticatedUser,
    found: Result<Option<Course>, StoreError>,
) -> (outcome: Result<CourseDeletion, Failure>)
    ensures
        outcome == spec_delete_course_by_id(*user, found),
{
    let found = match found {
        Ok(found) => found,
        Err(_) => return Err(Failure::Unexpected),
    };
    let owner_id = match &found {
        Some(course) => Some(course.instructor_id),
        None => None,
    };
    match ownership_gate(user, owner_id) {
        Decision::NotFound => Err(Failure::CourseNotFound),
        Decision::Forbidden => Err(Failure::MayNotDeleteCourse),
        Decision::Permit => {
            match found {
                Some(course) => Ok(CourseDeletion { course_id: course.id }),
                None => Err(Failure::CourseNotFound),
            }
        },
    }
}

/// Last step of deleting a course: the response, given the number of rows
/// that the store removed. One row is the course. Any other number means
/// that the course was gone by the time the deletion reached the store.
pub fn course_deleted(removed: Result<u64, StoreError>) -> (reply: Reply<()>)
    ensures
        reply == match removed {
            Ok(rows) => if rows == 1 {
                Reply::<()>::NoContent
            } else {
                Reply::Failed(Failure::CourseNotFound)
            },
            Err(_) => Reply::Failed(Failure::Unexpected),
        },
{
    match removed {
        Ok(rows) => if rows == 1 {
            Reply::NoContent
        } else {
            Reply::Failed(Failure::CourseNotFound)
        },
        Err(_) => Reply::Failed(Failure::Unexpected),
    }
}

/// The ownership gate stands before a deletion as before an update. Take a
/// course that exists and is owned by `owner_id`. A principal who is not the
/// owner and is a student is forbidden and deletes nothing; the same
/// principal as admin deletes the course; the owner deletes it under any
/// role.
pub proof fn law_deletion_behind_ownership_gate(course: Course, other_id: u128, role: UserRole)
    requires
        other_id != course.instructor_id,
    ensures
        spec_delete_course_by_id(
            AuthenticatedUser { id: other_id, role: UserRole::Student },
            Ok(Some(course)),
        ) == Err::<CourseDeletion, Failure>(Failure::MayNotDeleteCourse),
        Failure::MayNotDeleteCourse.spec_kind().spec_status() == 403,
        spec_delete_course_by_id(
            AuthenticatedUser { id: other_id, role: UserRole::Admin },
            Ok(Some(course)),
        ) == Ok::<CourseDeletion, Failure>(CourseDeletion { course_id: course.id }),
        spec_delete_course_by_id(
            AuthenticatedUser { id: course.instructor_id, role },
            Ok(Some(course)),
        ) == Ok::<CourseDeletion, Failure>(CourseDeletion { course_id: course.id }),
{
}

} // verus!

use ccb_common::catalog::{
    course_created, course_deleted, course_updated, create_course, delete_course_by_id,
    get_course_by_id, get_courses, update_course_by_id, Course, CourseChange, CourseDeletion,
    CreateCourse, NewCourse, UpdateCourse,
};
use ccb_common::failure::{Failure, Reply, StoreError};
use ccb_common::{AuthenticatedUser, UserRole};

const OWNER: u128 = 0x11;
const OTHER: u128 = 0x22;
const COURSE: u128 = 0xc0;

fn user(id: u128, role: UserRole) -> AuthenticatedUser {
    AuthenticatedUser { id, role }
}

fn course() -> Course {
    Course {
        id: COURSE,
        title: String::from("Logic"),
        description: Some(String::from("An introduction")),
        instructor_id: OWNER,
        created_at: 1,
        updated_at: 2,
    }
}

fn update(title: Option<&str>, description: Option<&str>) -> UpdateCourse {
    UpdateCourse { title: title.map(String::from), description: description.map(String::from) }
}

#[test]
fn create_course_makes_the_principal_the_owner() {
    let data = CreateCourse { title: String::from("Logic"), description: None };
    assert_eq!(
        create_course(&user(OWNER, UserRole::Instructor), data),
        Ok(NewCourse { title: String::from("Logic"), description: None, instructor_id: OWNER })
    );
    let data = CreateCourse {
        title: String::from("Sets"),
        description: Some(String::from("Naive")),
    };
    assert_eq!(
        create_course(&user(OTHER, UserRole::Admin), data),
        Ok(NewCourse {
            title: String::from("Sets"),
            description: Some(String::from("Naive")),
            instructor_id: OTHER,
        })
    );
}

#[test]
fn create_course_is_forbidden_to_students() {
    let data = CreateCourse { title: String::from("Logic"), description: None };
    let failure = create_course(&user(OWNER, UserRole::Student), data).unwrap_err();
    assert_eq!(failure, Failure::NotInstructorOrAdmin);
    assert_eq!(failure.status(), 403);
    assert_eq!(failure.message(), "Only instructors or admins can create courses");
}

#[test]
fn course_created_answers_created_or_internal() {
    assert_eq!(course_created(Ok(course())), Reply::Created(course()));
    assert_eq!(course_created(Ok(course())).status(), 201);
    for error in [StoreError::Other, StoreError::UniqueViolation, StoreError::RowNotFound] {
        let reply = course_created(Err(error));
        assert_eq!(reply, Reply::Failed(Failure::CourseNotCreated));
        assert_eq!(reply.status(), 500);
    }
    assert_eq!(Failure::CourseNotCreated.message(), "Failed to create course");
}

#[test]
fn get_courses_answers_with_the_list_or_internal() {
    assert_eq!(get_courses(Ok(vec![course(), course()])), Reply::Success(vec![course(), course()]));
    assert_eq!(get_courses(Ok(Vec::new())), Reply::Success(Vec::new()));
    assert_eq!(get_courses(Ok(Vec::new())).status(), 200);
    let reply = get_courses(Err(StoreError::Other));
    assert_eq!(reply, Reply::Failed(Failure::CoursesNotFetched));
    assert_eq!(reply.status(), 500);
    assert_eq!(Failure::CoursesNotFetched.message(), "Failed to fetch courses");
}

#[test]
fn get_course_by_id_tells_missing_from_failed() {
    assert_eq!(get_course_by_id(Ok(course())), Reply::Success(course()));
    let missing = get_course_by_id(Err(StoreError::RowNotFound));
    assert_eq!(missing, Reply::Failed(Failure::CourseNotFound));
    assert_eq!(missing.status(), 404);
    assert_eq!(Failure::CourseNotFound.message(), "Course not found");
    for error in [StoreError::Other, StoreError::UniqueViolation] {
        let failed = get_course_by_id(Err(error));
        assert_eq!(failed, Reply::Failed(Failure::CourseNotFetched));
        assert_eq!(failed.status(), 500);
    }
    assert_eq!(Failure::CourseNotFetched.message(), "Failed to fetch course");
}

#[test]
fn update_by_the_owner_keeps_the_title_where_none_is_given() {
    assert_eq!(
        update_course_by_id(
            &user(OWNER, UserRole::Instructor),
            Ok(Some(course())),
            update(None, Some("Revised")),
        ),
        Ok(CourseChange {
            course_id: COURSE,
            title: String::from("Logic"),
            description: Some(String::from("Revised")),
        })
    );
}

#[test]
fn update_by_the_owner_drops_the_description_where_none_is_given() {
    assert_eq!(
        update_course_by_id(
            &user(OWNER, UserRole::Instructor),
            Ok(Some(course())),
            update(Some("Logic II"), None),
        ),
        Ok(CourseChange { course_id: COURSE, title: String::from("Logic II"), description: None })
    );
}

#[test]
fn update_is_permitted_to_an_admin() {
    assert_eq!(
        update_course_by_id(
            &user(OTHER, UserRole::Admin),
            Ok(Some(course())),
            update(Some("T"), Some("D")),
        ),
        Ok(CourseChange {
            course_id: COURSE,
            title: String::from("T"),
            description: Some(String::from("D")),
        })
    );
}

#[test]
fn update_is_permitted_to_the_owner_under_any_role() {
    for role in [UserRole::Student, UserRole::Instructor, UserRole::Admin] {
        assert!(update_course_by_id(&user(OWNER, role), Ok(Some(course())), update(None, None))
            .is_ok());
    }
}

#[test]
fn update_is_forbidden_to_anyone_else() {
    for role in [UserRole::Student, UserRole::Instructor] {
        let failure =
            update_course_by_id(&user(OTHER, role), Ok(Some(course())), update(Some("T"), None))
                .unwrap_err();
        assert_eq!(failure, Failure::MayNotUpdateCourse);
        assert_eq!(failure.status(), 403);
        assert_eq!(failure.message(), "You are not authorized to update this course");
    }
}

#[test]
fn update_of_a_missing_course_is_not_found() {
    for role in [UserRole::Student, UserRole::Instructor, UserRole::Admin] {
        let failure =
            update_course_by_id(&user(OWNER, role), Ok(None), update(Some("T"), None)).unwrap_err();
        assert_eq!(failure, Failure::CourseNotFound);
        assert_eq!(failure.status(), 404);
    }
}

#[test]
fn update_answers_internal_without_body_where_the_lookup_failed() {
    let failure = update_course_by_id(
        &user(OWNER, UserRole::Admin),
        Err(StoreError::Other),
        update(Some("T"), None),
    )
    .unwrap_err();
    assert_eq!(failure, Failure::Unexpected);
    assert_eq!(failure.status(), 500);
    assert_eq!(failure.message(), "");
}

#[test]
fn course_updated_answers_with_the_course_or_internal() {
    assert_eq!(course_updated(Ok(course())), Reply::Success(course()));
    assert_eq!(course_updated(Ok(course())).status(), 200);
    let reply = course_updated(Err(StoreError::Other));
    assert_eq!(reply, Reply::Failed(Failure::CourseNotUpdated));
    assert_eq!(reply.status(), 500);
    assert_eq!(Failure::CourseNotUpdated.message(), "Failed to update course");
}

#[test]
fn delete_by_the_owner_is_permitted_under_any_role() {
    for role in [UserRole::Student, UserRole::Instructor, UserRole::Admin] {
        assert_eq!(
            delete_course_by_id(&user(OWNER, role), Ok(Some(course()))),
            Ok(CourseDeletion { course_id: COURSE })
        );
    }
}

#[test]
fn delete_is_permitted_to_an_admin() {
    assert_eq!(
        delete_course_by_id(&user(OTHER, UserRole::Admin), Ok(Some(course()))),
        Ok(CourseDeletion { course_id: COURSE })
    );
}

#[test]
fn delete_is_forbidden_to_a_student_who_is_not_the_owner() {
    let failure =
        delete_course_by_id(&user(OTHER, UserRole::Student), Ok(Some(course()))).unwrap_err();
    assert_eq!(failure, Failure::MayNotDeleteCourse);
    assert_eq!(failure.status(), 403);
    assert_eq!(failure.message(), "You are not authorized to delete this course");
}

#[test]
fn delete_is_forbidden_to_an_instructor_who_is_not_the_owner() {
    let failure =
        delete_course_by_id(&user(OTHER, UserRole::Instructor), Ok(Some(course()))).unwrap_err();
    assert_eq!(failure, Failure::MayNotDeleteCourse);
    assert_eq!(failure.status(), 403);
}

#[test]
fn delete_of_a_missing_course_is_not_found() {
    for role in [UserRole::Student, UserRole::Instructor, UserRole::Admin] {
        let failure = delete_course_by_id(&user(OTHER, role), Ok(None)).unwrap_err();
        assert_eq!(failure, Failure::CourseNotFound);
        assert_eq!(failure.status(), 404);
    }
}

#[test]
fn delete_answers_internal_without_body_where_the_lookup_failed() {
    for error in [StoreError::Other, StoreError::RowNotFound, StoreError::UniqueViolation] {
        let failure =
            delete_course_by_id(&user(OWNER, UserRole::Admin), Err(error)).unwrap_err();
        assert_eq!(failure, Failure::Unexpected);
        assert_eq!(failure.status(), 500);
        assert_eq!(failure.message(), "");
    }
}

#[test]
fn course_deleted_answers_no_content_for_one_row() {
    assert_eq!(course_deleted(Ok(1)), Reply::NoContent);
    assert_eq!(course_deleted(Ok(1)).status(), 204);
}

#[test]
fn course_deleted_answers_not_found_where_the_course_was_gone() {
    for rows in [0, 2, u64::MAX] {
        let reply = course_deleted(Ok(rows));
        assert_eq!(reply, Reply::Failed(Failure::CourseNotFound));
        assert_eq!(reply.status(), 404);
    }
}

#[test]
fn course_deleted_answers_internal_without_body_where_the_store_failed() {
    let reply = course_deleted(Err(StoreError::Other));
    assert_eq!(reply, Reply::Failed(Failure::Unexpected));
    assert_eq!(reply.status(), 500);
}

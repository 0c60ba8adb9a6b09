use menahel::errors::handler_errors::HandlerError;
use menahel::handlers::comment::{CommentLookup, GetCommentsQuery};
use menahel::handlers::project::{self, GetProjectsQuery, ProjectLookup};
use menahel::handlers::pagination::{
    check_pagination, error_answer, list_answer, pagination_status, Pagination, PaginationStatus,
};
use menahel::handlers::request::{bad_request, check_path_and_body_id, framework_error, reject};
use menahel::handlers::task::{self, GetTasksQuery, TaskLookup};
use menahel::handlers::user::{
    self, invalid_target_error, user_to_create, user_to_update, GetUsersQuery, UserLookup,
};
use menahel::handlers::user_assign::{self, GetUserAssignsQuery, UserAssignLookup};
use menahel::handlers::utils::{get_request_id, hash_password, to_hex_lower};
use menahel::errors::messages::ErrorKey;
use menahel::models::User;

const PASSWORD_DIGEST: &str = "5e884898da28047151d0e56f8dc6292773603d0d6aabbdd62a11ef721d1542d8";

fn bad_request_text(e: &HandlerError) -> String {
    match e {
        HandlerError::BadRequest(m) => m.clone(),
        other => panic!("not a bad request: {:?}", other),
    }
}

fn users_query(target: Option<&str>) -> GetUsersQuery {
    GetUsersQuery {
        target: target.map(|t| t.to_string()),
        page: None,
        page_size: None,
        name: None,
        id: None,
    }
}

fn tasks_query(target: Option<&str>) -> GetTasksQuery {
    GetTasksQuery {
        target: target.map(|t| t.to_string()),
        page: None,
        page_size: None,
        id: None,
        project_id: None,
        parent_id: None,
        level: None,
        name: None,
        description: None,
        status: None,
        deadline_from: None,
        deadline_to: None,
        created_at_from: None,
        created_at_to: None,
        updated_at_from: None,
        updated_at_to: None,
    }
}

#[test]
fn hex_of_bytes() {
    assert_eq!(to_hex_lower(&[0x00, 0x0f, 0xa5, 0xff]), "000fa5ff");
    assert_eq!(to_hex_lower(&[]), "");
}

#[test]
fn password_hashes() {
    assert_eq!(hash_password("password"), PASSWORD_DIGEST);
    assert_eq!(
        hash_password(""),
        "e3b0c44298fc1c149afbf4c8996fb92427ae41e4649b934ca495991b7852b855"
    );
    assert_ne!(hash_password("Password"), PASSWORD_DIGEST);
}

#[test]
fn user_target_strings() {
    assert_eq!(user::QueryTarget::str_to_enum("all").unwrap(), user::QueryTarget::All);
    assert_eq!(user::QueryTarget::str_to_enum("name").unwrap(), user::QueryTarget::Name);
    assert_eq!(user::QueryTarget::str_to_enum("id").unwrap(), user::QueryTarget::Id);
    let e = user::QueryTarget::str_to_enum("foo").unwrap_err();
    assert_eq!(
        bad_request_text(&e),
        "[UserHandlerGetUsersInvalidTarget] Invalid target. Target must be 'all', 'name', or 'id': (target: \"foo\")"
    );
    let e = user::QueryTarget::str_to_enum("a\"b").unwrap_err();
    assert!(bad_request_text(&e).ends_with("(target: \"a\\\"b\")"));
    assert!(user::QueryTarget::str_to_enum("ALL").is_err());
}

#[test]
fn user_queries() {
    assert!(matches!(users_query(None).lookup(), Ok(UserLookup::All { pagination: None })));
    let mut q = users_query(Some("name"));
    let r = q.lookup().unwrap_err();
    assert_eq!(r.status, 400);
    assert_eq!(
        bad_request_text(&r.error),
        "[UserHandlerGetUsersNoNameSpecified] Name is not specified: ()"
    );
    q.name = Some("alice".to_string());
    assert!(q.validate().is_ok());
    assert!(matches!(q.lookup(), Ok(UserLookup::ByName(n)) if n == "alice"));
    let mut q = users_query(Some("id"));
    let r = q.lookup().unwrap_err();
    assert_eq!(r.status, 500);
    assert_eq!(bad_request_text(&r.error), "[UserHandlerGetUsersNoIdSpecified] ID is not specified: ()");
    q.id = Some(7);
    assert!(matches!(q.lookup(), Ok(UserLookup::ById(7))));
    let r = users_query(Some("bad")).lookup().unwrap_err();
    assert_eq!(r.status, 400);
    let mut q = users_query(Some("all"));
    q.page = Some(2);
    q.page_size = Some(10);
    assert!(matches!(
        q.lookup(),
        Ok(UserLookup::All { pagination: Some(Pagination { current_page: 2, page_size: 10 }) })
    ));
}

#[test]
fn user_bodies_are_hashed() {
    let data = User {
        id: Some(3),
        username: "bob".to_string(),
        email: "bob@example.com".to_string(),
        password_hash: "password".to_string(),
    };
    let created = user_to_create(&data);
    assert_eq!(created.id, None);
    assert_eq!(created.username, "bob");
    assert_eq!(created.email, "bob@example.com");
    assert_eq!(created.password_hash, PASSWORD_DIGEST);
    let updated = user_to_update(9, &data);
    assert_eq!(updated.id, Some(9));
    assert_eq!(updated.password_hash, PASSWORD_DIGEST);
}

#[test]
fn update_ids_must_match() {
    assert!(user::check_update_ids(5, Some(5)).is_ok());
    let e = user::check_update_ids(5, Some(6)).unwrap_err();
    assert_eq!(
        bad_request_text(&e),
        "[UserHandlerPathAndBodyIdMismatch] Path ID and body ID mismatch: (path.id: 5, user_data.id: Some(6))"
    );
    let e = task::check_update_ids(-3, None).unwrap_err();
    assert_eq!(
        bad_request_text(&e),
        "[TaskHandlerPathAndBodyIdMismatch] Path ID and body ID mismatch: (path.id: -3, task_data.id: None)"
    );
    assert!(project::check_update_ids(1, Some(1)).is_ok());
    assert!(project::check_update_ids(1, None).is_err());
    assert!(user_assign::check_update_ids(2, Some(3)).is_err());
    let e = check_path_and_body_id(
        ErrorKey::CommentHandlerPathAndBodyIdMismatch,
        "p",
        i64::MIN,
        "b",
        Some(i64::MAX),
    )
    .unwrap_err();
    assert!(bad_request_text(&e)
        .ends_with("(p: -9223372036854775808, b: Some(9223372036854775807))"));
}

#[test]
fn rejections_carry_status() {
    let r = reject(bad_request(ErrorKey::UserIdInvalid, String::new()));
    assert_eq!(r.status, 400);
    let r = reject(HandlerError::NotFound("x".to_string()));
    assert_eq!(r.status, 404);
    let r = reject(HandlerError::InternalServerError("x".to_string()));
    assert_eq!(r.status, 500);
}

#[test]
fn task_queries() {
    assert!(matches!(
        tasks_query(None).lookup(),
        Ok(TaskLookup::AllOrFiltered { filter: None, pagination: None })
    ));
    let e = task::QueryTarget::str_to_enum("tree").unwrap_err();
    assert_eq!(
        bad_request_text(&e),
        "[TaskHandlerGetTasksInvalidTarget] Invalid target. Target must be 'all' or 'id'.: (tree)"
    );
    let mut q = tasks_query(Some("id"));
    assert!(q.validate().is_err());
    let r = q.lookup().unwrap_err();
    assert_eq!(r.status, 500);
    assert_eq!(bad_request_text(&r.error), "[TaskHandlerGetTasksNoIdSpecified] No id specified: ()");
    q.id = Some(12);
    assert!(matches!(q.lookup(), Ok(TaskLookup::ById(12))));
    let mut q = tasks_query(Some("filter"));
    assert!(q.get_task_filter().is_none());
    q.project_id = Some(4);
    q.name = Some("write".to_string());
    let f = q.get_task_filter().unwrap();
    assert_eq!(f.project_id, Some(4));
    assert_eq!(f.name, Some("write".to_string()));
    assert_eq!(f.status, None);
    assert!(!f.is_empty());
    match q.lookup() {
        Ok(TaskLookup::AllOrFiltered { filter: Some(f), .. }) => assert_eq!(f.project_id, Some(4)),
        other => panic!("unexpected {:?}", other),
    }
}

#[test]
fn project_queries() {
    let q = GetProjectsQuery {
        target: Some("name".to_string()),
        page: None,
        page_size: None,
        name: Some("alpha".to_string()),
        id: None,
    };
    assert_eq!(q.target().unwrap(), project::QueryTarget::Name);
    assert!(matches!(q.lookup(), Ok(ProjectLookup::ByName(n)) if n == "alpha"));
    let q = GetProjectsQuery { target: Some("id".to_string()), page: None, page_size: None, name: None, id: None };
    let r = q.lookup().unwrap_err();
    assert_eq!(r.status, 400);
    assert_eq!(bad_request_text(&r.error), "[ProjectHandlerGetProjectsNoIdSpecified] No id specified: ()");
    let e = project::QueryTarget::str_to_enum("x").unwrap_err();
    assert_eq!(
        bad_request_text(&e),
        "[ProjectHandlerGetProjectsInvalidTarget] Invalid target. Target must be 'all', 'name', or 'id': (target: x)"
    );
}

#[test]
fn comment_queries() {
    let mut q = GetCommentsQuery {
        target: Some("task_id".to_string()),
        page: Some(1),
        page_size: Some(5),
        id: None,
        task_id: None,
        user_id: None,
    };
    assert!(q.validate().is_err());
    q.task_id = Some(8);
    assert!(matches!(
        q.lookup(),
        Ok(CommentLookup::ByTaskId {
            task_id: 8,
            pagination: Some(Pagination { current_page: 1, page_size: 5 })
        })
    ));
    q.target = Some("user_id".to_string());
    assert!(q.lookup().is_err());
    q.user_id = Some(2);
    assert!(matches!(q.lookup(), Ok(CommentLookup::ByUserId { user_id: 2, .. })));
    q.target = Some("nope".to_string());
    let r = q.lookup().unwrap_err();
    assert_eq!(r.status, 400);
    assert!(bad_request_text(&r.error).ends_with("(target: nope)"));
}

#[test]
fn user_assign_queries() {
    let mut q = GetUserAssignsQuery {
        target: Some("filter".to_string()),
        page: None,
        page_size: None,
        id: None,
        userid: None,
        taskid: None,
    };
    assert!(q.get_user_assign_filter().is_none());
    q.userid = Some(1);
    let f = q.get_user_assign_filter().unwrap();
    assert_eq!(f.user_id, Some(1));
    assert_eq!(f.task_id, None);
    assert!(matches!(q.lookup(), Ok(UserAssignLookup::AllOrFiltered { filter: Some(_), .. })));
    q.target = Some("id".to_string());
    let r = q.lookup().unwrap_err();
    assert_eq!(r.status, 400);
    q.id = Some(4);
    assert!(matches!(q.lookup(), Ok(UserAssignLookup::ById(4))));
    let e = user_assign::QueryTarget::str_to_enum("user").unwrap_err();
    assert!(bad_request_text(&e).ends_with("(target: \"user\")"));
}

#[test]
fn request_ids() {
    assert_eq!(get_request_id(Some("req-42")), "req-42");
    assert_eq!(get_request_id(Some("")), "");
    let a = get_request_id(None);
    let b = get_request_id(None);
    assert_ne!(a, b);
    for id in [a, b] {
        let cs: Vec<char> = id.chars().collect();
        assert_eq!(cs.len(), 36);
        for (i, c) in cs.iter().enumerate() {
            if i == 8 || i == 13 || i == 18 || i == 23 {
                assert_eq!(*c, '-');
            } else {
                assert!(c.is_ascii_hexdigit() && !c.is_ascii_uppercase());
            }
        }
        assert_eq!(cs[14], '4');
        assert!(matches!(cs[19], '8' | '9' | 'a' | 'b'));
    }
}

#[test]
fn invalid_target_errors() {
    assert_eq!(
        bad_request_text(&invalid_target_error("\"x\"")),
        "[UserHandlerGetUsersInvalidTarget] Invalid target. Target must be 'all', 'name', or 'id': (target: \"x\")"
    );
    assert!(bad_request_text(&user_assign::invalid_target_error("q"))
        .starts_with("[UserAssignHandlerGetUserAssignsInvalidTarget] "));
}

#[test]
fn pagination_rule() {
    assert_eq!(pagination_status(None, None), PaginationStatus::Inactive);
    assert_eq!(pagination_status(Some(1), Some(1)), PaginationStatus::Active);
    assert_eq!(pagination_status(Some(3), Some(100)), PaginationStatus::Active);
    assert_eq!(pagination_status(Some(0), Some(10)), PaginationStatus::Error);
    assert_eq!(pagination_status(Some(1), Some(0)), PaginationStatus::Error);
    assert_eq!(pagination_status(Some(1), Some(101)), PaginationStatus::Error);
    assert_eq!(pagination_status(Some(1), Some(1000)), PaginationStatus::Error);
    assert_eq!(pagination_status(Some(1), None), PaginationStatus::Error);
    assert_eq!(pagination_status(None, Some(10)), PaginationStatus::Error);
    assert_eq!(pagination_status(Some(-1), Some(-1)), PaginationStatus::Error);
}

#[test]
fn invalid_pages_are_bad_requests() {
    let e = check_pagination(ErrorKey::UserHandlerGetUsersInvalidPage, Some(0), Some(4)).unwrap_err();
    assert_eq!(
        bad_request_text(&e),
        "[UserHandlerGetUsersInvalidPage] Invalid page or page size. Page must be greater than 0, and page size must be greater than 0 and less than 101: (page: Some(0), page_size: Some(4))"
    );
    let e = check_pagination(ErrorKey::TaskHandlerGetTasksInvalidPage, Some(1), None).unwrap_err();
    assert!(bad_request_text(&e).ends_with("(page: Some(1), page_size: None)"));
    assert_eq!(check_pagination(ErrorKey::TaskHandlerGetTasksInvalidPage, None, None).unwrap(), None);
    assert_eq!(
        check_pagination(ErrorKey::TaskHandlerGetTasksInvalidPage, Some(2), Some(50)).unwrap(),
        Some(Pagination { current_page: 2, page_size: 50 })
    );
}

#[test]
fn lookups_refuse_invalid_pages() {
    let mut q = users_query(None);
    q.page = Some(0);
    q.page_size = Some(4);
    let r = q.lookup().unwrap_err();
    assert_eq!(r.status, 400);
    let answer = error_answer(&r.error);
    assert_eq!(answer.rc, 1);
    assert!(answer.message.contains("BadRequest"));
    assert!(answer.message.contains(ErrorKey::UserHandlerGetUsersInvalidPage.to_string().as_str()));
    let mut q = users_query(Some("id"));
    q.id = Some(1);
    q.page = Some(0);
    assert!(matches!(q.lookup(), Ok(UserLookup::ById(1))));
    let mut q = tasks_query(None);
    q.page = Some(1);
    q.page_size = Some(1000);
    let r = q.lookup().unwrap_err();
    assert!(bad_request_text(&r.error).starts_with("[TaskHandlerGetTasksInvalidPage]"));
    let q = GetUserAssignsQuery {
        target: None,
        page: Some(1),
        page_size: Some(101),
        id: None,
        userid: None,
        taskid: None,
    };
    let r = q.lookup().unwrap_err();
    assert!(error_answer(&r.error).message.contains("BadRequest"));
    let q = GetProjectsQuery { target: None, page: None, page_size: Some(10), name: None, id: None };
    assert!(bad_request_text(&q.lookup().unwrap_err().error)
        .starts_with("[ProjectHandlerGetProjectsInvalidPage]"));
    let q = GetCommentsQuery {
        target: None,
        page: Some(0),
        page_size: Some(10),
        id: None,
        task_id: None,
        user_id: None,
    };
    assert!(bad_request_text(&q.lookup().unwrap_err().error)
        .starts_with("[CommentHandlerGetCommentInvalidPage]"));
    let q = GetCommentsQuery {
        target: Some("id".to_string()),
        page: Some(0),
        page_size: None,
        id: Some(3),
        task_id: None,
        user_id: None,
    };
    assert!(matches!(q.lookup(), Ok(CommentLookup::ById(3))));
}

#[test]
fn list_answers() {
    let a = list_answer(vec![1, 2, 3], Some(Pagination { current_page: 1, page_size: 3 }));
    assert_eq!(a.results, vec![1, 2, 3]);
    assert_eq!(a.count, 3);
    assert_eq!(a.pagination, Some(Pagination { current_page: 1, page_size: 3 }));
    let b: menahel::handlers::pagination::ListAnswer<i64> = list_answer(Vec::new(), None);
    assert_eq!(b.count, 0);
    assert_eq!(b.pagination, None);
    let e = error_answer(&HandlerError::NotFound("gone".to_string()));
    assert_eq!(e.message, "NotFound: gone");
    assert_eq!(e.rc, 1);
}

#[test]
fn framework_errors() {
    let e = framework_error(ErrorKey::UserHandlerInvalidJsonPost, "missing field `email`");
    assert!(bad_request_text(&e).ends_with("(ActixWebError: missing field `email`)"));
    assert!(bad_request_text(&e).starts_with("[UserHandlerInvalidJsonPost] "));
    let e = framework_error(ErrorKey::TaskHandlerInvalidPath, "bad id");
    assert_eq!(bad_request_text(&e), "[TaskHandlerInvalidPath] Unknown error: (ActixWebError: bad id)");
}

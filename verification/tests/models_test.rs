use menahel::errors::messages::ErrorKey;
use menahel::models::{Project, Task, TaskFilter, User, UserAssignFilter};
use menahel::handlers::utils::hash_password;
use menahel::utils::validate_user_password;

const PASSWORD_DIGEST: &str = "5e884898da28047151d0e56f8dc6292773603d0d6aabbdd62a11ef721d1542d8";

#[test]
fn passwords_are_checked() {
    assert_eq!(validate_user_password(""), Err(ErrorKey::UserPasswordEmpty));
    assert_eq!(validate_user_password("password"), Err(ErrorKey::UserPasswordInvalid));
    assert_eq!(validate_user_password(PASSWORD_DIGEST), Ok(()));
    let upper = PASSWORD_DIGEST.to_uppercase();
    assert_eq!(validate_user_password(&upper), Err(ErrorKey::UserPasswordInvalid));
    let long = format!("{}0", PASSWORD_DIGEST);
    assert_eq!(validate_user_password(&long), Err(ErrorKey::UserPasswordInvalid));
    let with_g = format!("g{}", &PASSWORD_DIGEST[1..]);
    assert_eq!(validate_user_password(&with_g), Err(ErrorKey::UserPasswordInvalid));
}

#[test]
fn new_users_store_a_digest() {
    let u = User::new("alice".to_string(), "a@example.com".to_string(), "password".to_string());
    assert_eq!(u.id, None);
    assert_eq!(u.username, "alice");
    assert_eq!(u.email, "a@example.com");
    assert_eq!(u.password_hash, PASSWORD_DIGEST);
    let again = User::new("alice".to_string(), "a@example.com".to_string(), u.password_hash.clone());
    assert_eq!(again.password_hash, PASSWORD_DIGEST);
    assert_eq!(again, u);
}

#[test]
fn new_records() {
    let p = Project::new("alpha".to_string());
    assert_eq!(p.id, None);
    assert_eq!(p.name, "alpha");
    assert_eq!(p.clone(), p);
    let t = Task::new(1, Some(2), 1, "write".to_string(), None, 0, Some(100));
    assert_eq!(t.id, None);
    assert_eq!(t.project_id, 1);
    assert_eq!(t.parent_id, Some(2));
    assert_eq!(t.created_at, 0);
    assert_eq!(t.updated_at, None);
    assert_eq!(t.deadline, Some(100));
}

#[test]
fn filters() {
    let mut f = TaskFilter::new();
    assert!(f.is_empty());
    f.status = Some(1);
    assert!(!f.is_empty());
    assert!(UserAssignFilter { user_id: None, task_id: None }.is_empty());
    assert!(!UserAssignFilter { user_id: None, task_id: Some(3) }.is_empty());
}

#[test]
fn hashed_passwords_pass_the_check() {
    for p in ["", "password", "パスワード", "a much longer pass phrase with spaces"] {
        assert_eq!(validate_user_password(&hash_password(p)), Ok(()));
    }
}

use axum_template::errors::auth::AuthError;
use axum_template::errors::users::UserError;
use axum_template::handlers::auth::{login_outcome, register_failure};
use axum_template::handlers::users::{
    creation_failure, page_outcome, profile_outcome, update_outcome, updated_user,
};
use axum_template::models::users::{Role, User};
use axum_template::schemas::users::RegisterUser;
use axum_template::services::auth::hashing::hash;

fn user(id: u128, name: &str) -> User {
    User {
        id,
        name: name.to_string(),
        email: format!("{}@example.com", name),
        role: Role::User,
        password_hash: hash(name, "s"),
    }
}

#[test]
fn user_error_statuses_and_bodies() {
    assert_eq!(UserError::Db("connection reset".to_string()).status_code(), 500);
    assert_eq!(UserError::Db("connection reset".to_string()).body(), "connection reset");
    assert_eq!(UserError::NotFound.status_code(), 404);
    assert_eq!(UserError::NotFound.body(), "User not found");
    assert_eq!(UserError::UserAlreadyExists.status_code(), 409);
    assert_eq!(UserError::UserAlreadyExists.body(), "User with this email already exists");
    assert_eq!(UserError::InvalidRole.status_code(), 400);
    assert_eq!(UserError::InvalidRole.body(), "Invalid role");
}

#[test]
fn auth_error_statuses_and_bodies() {
    assert_eq!(AuthError::Unauthorized.status_code(), 401);
    assert_eq!(AuthError::Unauthorized.body(), "Unauthorized");
    assert_eq!(AuthError::Db("boom".to_string()).status_code(), 500);
    assert_eq!(AuthError::Db("boom".to_string()).body(), "boom");
    assert_eq!(AuthError::UserError(UserError::UserAlreadyExists).status_code(), 409);
    assert_eq!(AuthError::UserError(UserError::NotFound).body(), "User not found");
}

#[test]
fn register_failure_classifies_unique_violation() {
    assert_eq!(
        register_failure(true, "duplicate key".to_string()),
        AuthError::UserError(UserError::UserAlreadyExists)
    );
    assert_eq!(
        register_failure(false, "timeout".to_string()),
        AuthError::Db("timeout".to_string())
    );
}

#[test]
fn creation_failure_classifies_unique_violation() {
    assert_eq!(creation_failure(true, "dup".to_string()), UserError::UserAlreadyExists);
    assert_eq!(creation_failure(false, "io".to_string()), UserError::Db("io".to_string()));
}

#[test]
fn login_outcome_requires_a_match() {
    assert!(matches!(login_outcome(None), Err(AuthError::Unauthorized)));
    match login_outcome(Some(user(5, "bob"))) {
        Ok(found) => assert_eq!(found.id, 5),
        Err(_) => panic!("a found account must log in"),
    }
}

#[test]
fn profile_outcome_maps_missing_account_to_not_found() {
    assert!(matches!(profile_outcome(None), Err(UserError::NotFound)));
    match profile_outcome(Some(user(9, "eve"))) {
        Ok(response) => {
            assert_eq!(response.id, 9);
            assert_eq!(response.name, "eve");
            assert_eq!(response.email, "eve@example.com");
            assert_eq!(response.role, Role::User);
        }
        Err(_) => panic!("a found account has a profile"),
    }
}

#[test]
fn update_outcome_needs_a_changed_row() {
    assert_eq!(update_outcome(0), Err(UserError::NotFound));
    assert_eq!(update_outcome(1), Ok(204));
    assert_eq!(update_outcome(3), Ok(204));
}

#[test]
fn updated_user_writes_no_role() {
    let data = RegisterUser {
        name: "New".to_string(),
        email: "new@example.com".to_string(),
        password: "pw2".to_string(),
    };
    let row = updated_user(11, data, "s");
    assert_eq!(row.id, 11);
    assert_eq!(row.name, "New");
    assert_eq!(row.email, "new@example.com");
    assert_eq!(row.password_hash, hash("pw2", "s"));
}

#[test]
fn empty_page_is_no_content() {
    let (status, body) = page_outcome(Vec::new());
    assert_eq!(status, 204);
    assert!(body.is_empty());
}

#[test]
fn page_keeps_order_and_hides_hashes() {
    let (status, body) = page_outcome(vec![user(1, "a"), user(2, "b"), user(3, "c")]);
    assert_eq!(status, 200);
    let ids: Vec<u128> = body.iter().map(|r| r.id).collect();
    assert_eq!(ids, vec![1, 2, 3]);
    let names: Vec<&str> = body.iter().map(|r| r.name.as_str()).collect();
    assert_eq!(names, vec!["a", "b", "c"]);
}

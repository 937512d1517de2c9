use axum_template::models::users::{Role, User};
use axum_template::repositories::users::{Limit, Offset, UserRepo};
use axum_template::schemas::users::{RegisterUser, UserResponse};
use axum_template::services::auth::hashing::hash;

fn registration(password: &str) -> RegisterUser {
    RegisterUser {
        name: "Ann".to_string(),
        email: "ann@example.com".to_string(),
        password: password.to_string(),
    }
}

#[test]
fn hash_of_known_value() {
    assert_eq!(
        hash("password", "secret"),
        "7b379e6f9471c35007fc62406ab531044312375e4710ce700fb0ad3b4839025d013d3a3943e7bdb1a8dd7988e23e4d8aadb6061332f08c4be71403a728a8ab6e"
    );
}

#[test]
fn hash_of_empty_value_and_secret() {
    assert_eq!(
        hash("", ""),
        "cf83e1357eefb8bdf1542850d66d8007d620e4050b5715dc83f4a921d36ce9ce47d0d13c5d85f2b0ff8318d2877eec2f63b931bd47417a81a538327af927da3e"
    );
}

#[test]
fn hash_uses_utf8_bytes() {
    assert_eq!(
        hash("пароль", "k"),
        "edc588610cd8d71368d24b75853c49aeb6661ad12d1b383b521d948be8a42b1b792b0b2e41314e883832ab796d03bdb8b3e84e4e2287bd1f5e882011990c9c4b"
    );
}

#[test]
fn hash_is_128_lowercase_hex_digits() {
    let digest = hash("correct horse", "battery staple");
    assert_eq!(digest.len(), 128);
    assert!(digest.chars().all(|c| c.is_ascii_digit() || ('a'..='f').contains(&c)));
}

#[test]
fn hash_depends_on_secret_and_value() {
    assert_ne!(hash("password", "secret"), hash("password", "other"));
    assert_ne!(hash("password", "secret"), hash("passwore", "secret"));
    assert_eq!(hash("password", "secret"), hash("password", "secret"));
}

#[test]
fn register_with_id_builds_ordinary_user() {
    let user = User::from_register_with_id(42, registration("password"), "secret");
    assert_eq!(user.id, 42);
    assert_eq!(user.name, "Ann");
    assert_eq!(user.email, "ann@example.com");
    assert_eq!(user.role, Role::User);
    assert_eq!(user.password_hash, hash("password", "secret"));
}

#[test]
fn register_draws_random_v4_ids() {
    let a = User::from_register(registration("password"), "secret");
    let b = User::from_register(registration("password"), "secret");
    for user in [&a, &b] {
        assert_eq!(uuid::Uuid::from_u128(user.id).get_version_num(), 4);
        assert_eq!(uuid::Uuid::from_u128(user.id).get_variant(), uuid::Variant::RFC4122);
        assert_eq!(user.role, Role::User);
        assert_eq!(user.password_hash, hash("password", "secret"));
    }
}

#[test]
fn login_with_registered_password_presents_stored_digest() {
    let user = User::from_register(registration("hunter2"), "server-key");
    assert_eq!(hash("hunter2", "server-key"), user.password_hash);
    assert_ne!(hash("hunter3", "server-key"), user.password_hash);
}

#[test]
fn admin_row_raises_role_only() {
    let user = User::from_register_with_id(7, registration("pw"), "s");
    let row = UserRepo::admin_row(user);
    assert_eq!(row.id, 7);
    assert_eq!(row.role, Role::Admin);
    assert_eq!(row.name, "Ann");
    assert_eq!(row.email, "ann@example.com");
    assert_eq!(row.password_hash, hash("pw", "s"));
}

#[test]
fn page_params_in_range() {
    assert_eq!(UserRepo::page_params(&Offset(20), &Limit(10)), (10, 20));
    assert_eq!(UserRepo::page_params(&Offset(0), &Limit(0)), (0, 0));
    assert_eq!(
        UserRepo::page_params(&Offset(i64::MAX as u64), &Limit(1)),
        (1, i64::MAX)
    );
}

#[test]
fn page_params_beyond_bigint_wrap() {
    assert_eq!(UserRepo::page_params(&Offset(u64::MAX), &Limit(1u64 << 63)), (i64::MIN, -1));
}

#[test]
fn limit_and_offset_deref() {
    let limit = Limit(5);
    let offset = Offset(9);
    assert_eq!(*limit, 5);
    assert_eq!(*offset, 9);
    let old_limit = axum_template::repository::users::Limit(3);
    let old_offset = axum_template::repository::users::Offset(4);
    assert_eq!(*old_limit + *old_offset, 7);
}

#[test]
fn user_response_drops_password_hash() {
    let user = User::from_register_with_id(3, registration("pw"), "s");
    let response = UserResponse::from(user);
    assert_eq!(response.id, 3);
    assert_eq!(response.name, "Ann");
    assert_eq!(response.email, "ann@example.com");
    assert_eq!(response.role, Role::User);
}

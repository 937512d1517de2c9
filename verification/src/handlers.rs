pub mod auth;
pub mod users;

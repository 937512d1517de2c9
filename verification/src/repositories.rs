pub mod tokens;
pub mod users;

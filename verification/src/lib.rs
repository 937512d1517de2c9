//! Verified core of an axum user-and-authentication service: roles and
//! their textual form, user records, password hashing, repository row
//! preparation, the decisions taken by the HTTP handlers, and the role guard.

pub mod config;
pub mod errors;
pub mod handlers;
pub mod middlewares;
pub mod models;
pub mod repositories;
pub mod repository;
pub mod schemas;
pub mod services;

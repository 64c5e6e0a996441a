//! Todo and label records behind a backend-agnostic repository capability,
//! with a parse-then-validate gate for request payloads.
pub mod models;
pub mod repositories;
pub mod todo_repository;
pub mod label_repository;
pub mod validation;
pub mod handlers;

//! Verified core of a newsletter service: configuration parsing, subscriber
//! e-mail validation, page rendering helpers and the decisions taken by the
//! HTTP handlers.

pub mod text;
pub mod domain;
pub mod logging;
pub mod configurations;
pub mod frontend;
pub mod authentication;
pub mod routes;
pub mod tasks;
pub mod startup;

//! Authentication and request-authorization core of a small blog backend.
//!
//! The crate verifies the logic that carries real contracts: password
//! hashing and checking, issue and verification of signed identity tokens,
//! the user and post stores with their uniqueness and ownership invariants,
//! the registration/login services, and the per-request authentication
//! that turns a bearer header into a resolved identity.

pub mod auth_extract;
pub mod auth_service;
pub mod blog_repository;
pub mod blog_service;
pub mod error;
pub mod handlers;
pub mod hashing;
pub mod jwt;
pub mod post;
pub mod text;
pub mod user;
pub mod user_repository;

//! Authentication and session engine.
//!
//! Validates credentials, issues and rotates signed tokens, enforces an
//! optional time-based second factor, and manages the short-lived records
//! (registration confirmations, recovery codes, pending challenges) that
//! bridge an asynchronous email-confirmation step with account creation
//! or login.

pub mod auth;
pub mod errors;
pub mod hasher;
pub mod jwt;
pub mod mail;
pub mod models;
pub mod recovery;
pub mod redis;
pub mod register;
pub mod repository;
pub mod session;
pub mod text;
pub mod tfa;
pub mod time;
pub mod validate;

//! A small multi-page web application library whose core is request
//! authentication: a signed, time-bounded credential is issued at login,
//! carried in a cookie, and checked on every protected request.
//!
//! The modules mirror the application's layout: `jwt` holds the claims model
//! and the credential codec, `token` the token wire format, `error` the
//! user-facing error taxonomy, and `handler` the per-request decision logic.
pub mod error;
pub mod handler;
pub mod jwt;
pub mod token;

//! Per-request decision logic of the page handlers.
//!
//! Each handler's routine I/O (template rendering, session storage,
//! persistence) stays with the surrounding runtime; what is here is the
//! decision each request drives: which page to show, where to redirect,
//! and how failures are classified.
pub mod authenticate;
pub mod error;
pub mod jwt;
pub mod product_register;
pub mod product_search;

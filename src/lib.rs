//! Resilient database access for a small article-publishing backend.
//!
//! The heart of the library is [`db::service`]: the state kept by the
//! connection manager and by every statement handle, and the decisions that
//! drive them.  The asynchronous plumbing that performs the actual network
//! work runs outside the library and feeds each outcome back in.
pub mod error;
pub use error::AppError;

pub mod app;

pub mod auth;

pub mod middleware;

pub mod models;

pub mod forms;

pub mod db;

pub mod services;

pub mod shutdown;

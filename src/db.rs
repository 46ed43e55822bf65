pub mod article;
pub mod comment;
pub mod service;
pub mod tag;
pub mod user;
pub mod util;

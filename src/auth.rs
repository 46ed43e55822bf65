pub mod jwt;
pub mod pass;

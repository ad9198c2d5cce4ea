//! Server-side verification of Clerk session credentials.

pub mod claims;
pub mod jwks;
pub mod jwt;
pub mod verification;
pub mod credentials;
pub mod context;
pub mod extractor;
pub mod ssr;
pub mod config;

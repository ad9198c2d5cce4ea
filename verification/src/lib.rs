//! Clerk authentication logic: auth state, session-token claims, SSR
//! initial state, and request-credential handling.
use vstd::prelude::*;

pub mod auth;
pub mod client;
pub mod control;
pub mod duration;
pub mod hooks;
pub mod json;
pub mod lifecycle;
pub mod loader;
pub mod options;
pub mod publishable_key;
pub mod server;
pub mod ssr;
pub mod testing;
pub mod text;
pub mod widget;

verus! {

} // verus!

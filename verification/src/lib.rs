//! The verified core of the client catalogue request service: what sellers
//! and clients may send, how it is stored, the limits of free and licensed
//! workspaces, seller sign-in checks, rate limiting and runtime settings.
use vstd::prelude::*;

pub mod auth;
pub mod catalogue;
pub mod error;
pub mod laws;
pub mod license;
pub mod rate;
pub mod requests;
pub mod runtime;
pub mod text;
pub mod tokens;

verus! {
}

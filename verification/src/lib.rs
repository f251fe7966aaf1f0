//! Core of an authentication gateway: bearer-token verification, the
//! decision on each protected request, and the proxy logic that normalises
//! an upstream identity provider's replies.
//!
//! - [`middleware`]: the signing policy, the verifier and the decision on a
//!   request.
//! - [`supabase`]: the identity proxy, with the storage addresses and the
//!   real-time bookkeeping that share its configuration.
//! - [`auth`]: the account lifecycle handlers and their table of transport
//!   outcomes.
//! - [`text`]: helpers on text: numerals, prefixes, replacement.
//! - [`trusted`]: the calls into other crates, which are believed and not
//!   proved.
//!
//! The library sends nothing and reads no clock or environment of its own:
//! the caller hands it what arrived and does what it says.

pub mod auth;
pub mod middleware;
pub mod supabase;
pub mod text;
pub mod trusted;

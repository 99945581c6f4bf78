//! Password-credential authentication with session-backed identity.
//!
//! The library holds the decisions of the authentication core: hashing and
//! checking passwords, the authentication backend, the per-request
//! auth-session facade, and the reaper's schedule. The user store and the
//! session store (with sliding expiry and expired-session deletion) are
//! in-memory models of the persistent stores: they state and prove what a
//! store must do for the core to be correct. Everything is verified against
//! the models given by the views of each type.

pub mod error;
pub mod hasher;
pub mod user;
pub mod store;
pub mod backend;
pub mod session;
pub mod auth_session;
pub mod reaper;
pub mod profile;
pub mod art;
pub mod lemmas;

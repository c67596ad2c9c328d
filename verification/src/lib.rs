//! Request authentication and role authorization for a feedback-tracking API.
//!
//! The crate establishes who a caller is from a bearer credential and decides
//! what that caller may do. It keeps no session state: every decision is a
//! function of the presented credential, the signing secret and the clock.
//!
//! - [`hasher`] derives and verifies salted password digests.
//! - [`token`] issues and validates signed, time-limited identity tokens.
//! - [`gate`] lets a request pass with an identity, or stops it.
//! - [`guard`] decides what an identity may do.
//! - [`accounts`] signs callers up and in, with the account store outside.
//! - [`projects`] creates projects for the callers that may have them.
//! - [`store`] says what the store's answers mean for a caller.
//! - [`real_ip`] picks the proxy header texts that may name the client.
//!
//! [`role`], [`error`] and [`models`] hold the shared vocabulary, [`json`]
//! and [`text`] what the rest needs of JSON objects and strings.

pub mod accounts;
pub mod error;
pub mod gate;
pub mod guard;
pub mod hasher;
pub mod json;
pub mod models;
pub mod projects;
pub mod real_ip;
pub mod role;
pub mod store;
pub mod text;
pub mod token;

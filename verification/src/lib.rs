//! Backend logic of a personal relationship tracker: users register buddies
//! and log interactions with them.
//!
//! The heart of the crate is authentication. A password becomes a salted
//! digest, a user id becomes a signed bearer token with a fixed lifetime, and
//! the value of an `Authorization` header becomes a user id again, or an
//! error. Every function states what it returns in its contract, over the
//! views of the data it handles.

pub mod clock;
pub mod credential;
pub mod decimal;
pub mod error;
pub mod ident;
pub mod routes;
pub mod service;
pub mod storage;
pub mod token;
pub mod types;

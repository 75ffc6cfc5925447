//! Session credentials for a service that authenticates by username and
//! password: password verification, token generation, expiry policy and the
//! single-use rotation of refresh tokens, over an in-memory model of the
//! `login` and `session` tables.

pub mod auth;
pub mod digest;
pub mod error;
pub mod seq_facts;
pub mod store;
pub mod theorems;
pub mod token;

pub use crate::auth::{login, refresh, LoginData, RefreshData, ResponseData};
pub use crate::error::ApiError;
pub use crate::store::{Account, Mutation, Session, Store};

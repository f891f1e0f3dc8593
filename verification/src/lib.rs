//! User-identity engine: multi-key user resolution, field-level update
//! authorization, credential hashing and verification, friend aggregation,
//! and the registration workflow, all against an in-memory keyed user store.

pub mod types;
pub mod text;
pub mod passwords;
pub mod user;
pub mod store;
pub mod update;
pub mod friend;
pub mod register;
pub mod login;
pub mod status;
pub mod api;

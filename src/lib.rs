//! Core of a small social-post backend: bearer tokens that gate every
//! mutation, the decisions of the account service, and the
//! fetch-mutate-replace protocol on tweet documents with their embedded
//! likes and comments.
pub mod auth;
pub mod clock;
pub mod dto;
pub mod error;
pub mod model;
pub mod oid;
pub mod protocol;
pub mod requests;
pub mod token;

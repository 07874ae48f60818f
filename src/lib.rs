//! Request authentication and role authorization: password hashing, signed
//! bearer tokens, and the per-request pipeline that turns a credential into
//! an identity and checks it against a route's allowed roles.

pub mod auth;
pub mod config;
pub mod dtos;
pub mod error;
pub mod models;
pub mod password;
pub mod token;

//! Authentication and authorization core of a location-pin-sharing backend.
//!
//! Users sign up and log in with Basic credentials, receive a signed bearer
//! token, and present it on every protected route.  This crate holds the
//! verified logic of that flow: Basic-header parsing, salted password
//! hashing and verification, token issuance and validation, and the
//! per-request permission checks that the route handlers enforce.  The
//! HTTP plumbing and the storage collaborator live outside the crate and
//! exchange plain values with it.

pub mod auth_parameters;
pub mod auth_permissions;
pub mod auth_service;
pub mod auth_token;
pub mod credentials;
pub mod domain;
pub mod errors;
pub mod pinpoints;
pub mod startup;
pub mod strutil;
pub mod users;
pub mod utils;

//! User accounts: validation of sign-up and login requests, password
//! hashing, user identifiers, the decisions of the user service and the
//! authorisation rules of its HTTP endpoints.

pub mod object_id;
pub mod validation;
pub mod models;
pub mod password;
pub mod service;
pub mod controller;

//! Authentication and role-based authorization for an inventory service:
//! password checks, signed bearer tokens, the gates that guard each route
//! group, and the decisions of registration and login.

pub mod credentials;
pub mod error;
pub mod gate;
pub mod items;
pub mod models;
pub mod password;
pub mod routes;
pub mod token;

//! Service registry, user store and token-epoch rules for a small container
//! control plane. Container runtime calls, disk access and token signing are
//! performed by the caller, which hands their outcomes to the functions here.

pub mod auth;
pub mod config;
pub mod error;
pub mod manager;
pub mod models;
pub mod user;

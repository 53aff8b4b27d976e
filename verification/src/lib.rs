//! Verified core of a small todo web service: credential and input
//! validation, the in-memory stores and the repositories over them, the
//! authentication and todo use cases, the configuration rules, and the
//! writing of the stores to fjall keyspaces.

pub mod validation;
pub mod text;
pub mod error;
pub mod model;
pub mod order;
pub mod keyed;
pub mod sort;
pub mod store;
pub mod repository;
pub mod report;
pub mod password;
pub mod ids;
pub mod jwt;
pub mod dto;
pub mod config;
pub mod auth;
pub mod todo;
pub mod api;
pub mod applications;
pub mod laws;
pub mod persist;

//! Lions POS: the verified core of a point-of-sale backend.
//!
//! The library holds the data model of the shop (catalogue, branches, stock,
//! users, roles and permissions) and the decisions the HTTP handlers make on
//! it: what a new record holds, how an update merges into a stored record,
//! when a request is refused and with which message, how stock moves on a
//! sale or a manual adjustment, and which permissions a fresh database gets.
//! Database access, HTTP plumbing and money arithmetic (which the shop does
//! in floating point) live in the application around it.

pub mod error;
pub mod response;
pub mod text;
pub mod ids;
pub mod clock;
pub mod password;
pub mod users;
pub mod auth;
pub mod config;
pub mod catalog;
pub mod inventory;
pub mod orders;
pub mod upload;
pub mod seed;
pub mod vouchers;
pub mod shifts;

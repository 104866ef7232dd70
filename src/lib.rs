//! A small REST backend for users and customers: the decisions that its
//! request handlers make, as verified functions from plain values to plain
//! values. Database access, HTTP wiring and token signing live around it.

pub mod auth;
pub mod customers;
pub mod error;
pub mod response;
pub mod users;

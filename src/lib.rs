//! A session-and-query gateway to one search cluster at a time: the active
//! connection, the requests sent to it with their authentication, and the
//! answers read back into fixed shapes. Sending and receiving is left to the
//! caller, who hands each reply back as a plain value.

pub mod admin;
pub mod bindings;
pub mod connection;
pub mod error;
pub mod http;
pub mod json;
pub mod model;
pub mod ops;
pub mod session;
pub mod text;

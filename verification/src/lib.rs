//! A small todo backend: a typed store access layer over an in-memory
//! table model, a numeric-token auth resolver, per-operation request
//! handlers, and an error-to-HTTP mapper, all with verified contracts.
//! The I/O shells (HTTP server, relational store driver) live outside
//! this library and hand it plain values.

pub mod db;
pub mod json;
pub mod model;
pub mod num;
pub mod security;
pub mod todo;
pub mod web;

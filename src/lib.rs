//! A command gateway for a desktop shell: a lazily established, shared store
//! connection, a table of HTTP-shaped routes, and the translation of boundary
//! calls into routed requests and back. Beside it, the value objects of the
//! listed-company records that the routes serve.

pub mod connection;
pub mod domain;
pub mod error;
pub mod gateway;
pub mod outside;
pub mod record;
pub mod route;
pub mod sample;
pub mod sector;

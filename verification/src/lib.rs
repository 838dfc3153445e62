//! A generic reflective persistence layer for row-shaped entities.
//!
//! Record types describe themselves as an ordered list of column names paired
//! with typed values; a small CRUD engine consumes that description to build
//! parameterized SQL statements with positionally aligned bind lists, and to
//! run the same operations against an in-memory table store whose semantics
//! are fully specified. A book controller instantiates the engine for one
//! entity kind.

pub mod book;
pub mod controller;
pub mod crud;
pub mod db;
pub mod error;
pub mod iterable;
pub mod laws;
pub mod model;
pub mod requests;
pub mod routes;
pub mod sql;
pub mod values;

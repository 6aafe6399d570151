//! A small inventory-management core: articles, customers and orders kept in a
//! relational store, reached through one generic set of persistence operations.
//!
//! The store itself is a SQLite database (through `rusqlite`); each table is
//! modelled as a sequence of plain row values, and every statement the library
//! issues is described by a contract over those sequences.  Monetary amounts
//! are integers in cents throughout.
pub mod db;
pub mod html;
pub mod laws;
pub mod operations;
pub mod sql;
pub mod statistics;
pub mod stats;
pub mod traits;
pub mod types;

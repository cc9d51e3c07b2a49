//! Articles: short text records kept in a relational store.
//!
//! The library maps a record to the statement that stores it and an
//! identifier to the statement that looks a record up, both with every
//! value bound out of band, and maps each outcome of the store to the
//! reply of the endpoint. It performs no I/O: the caller runs the
//! statements and hands the outcomes back.
//!
//! - [`article`]: the record and its view.
//! - [`statement`]: statements, their placeholders, `insert` and `select`.
//! - [`response`]: statuses, failures of the store, and the two error
//!   mappers.
//! - [`handlers`]: the decisions of the create and fetch handlers.
//! - [`text`]: decimal numerals.
//! - [`laws`]: what holds of statements and replies for every input.

pub mod article;
pub mod handlers;
pub mod laws;
pub mod response;
pub mod statement;
pub mod text;

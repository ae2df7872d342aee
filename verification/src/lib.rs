//! Verified core of a small user-and-plants lookup service backed by a
//! relational store: decoding raw result rows into typed records, folding
//! the rows of a left-joined query into one user with its ordered plants,
//! and the two store-facing query operations.

pub mod aggregator;
pub mod gateway;
pub mod records;
pub mod row_mapper;
pub mod values;

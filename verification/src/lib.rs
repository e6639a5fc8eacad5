//! Verified core of a multi-chain, notification-driven synchronization engine.
//!
//! The engine mirrors live state from a set of independently evolving remote
//! chains into an external relational store. This crate holds the verified
//! logic: the per-chain cache of last-known values, the diff rules that decide
//! which records must be written after each notification, the registry that
//! deduplicates worker spawns across concurrent discovery, and the pure
//! construction of query texts and sink endpoints. The unverified edges
//! (network transport, the notification stream, the HTTP sink) live outside
//! this crate and consume these functions.

pub mod cache;
pub mod chain;
pub mod models;
pub mod registry;
pub mod store;
pub mod supabase;
pub mod sync;
pub mod text;
pub mod worker;

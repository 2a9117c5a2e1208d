//! A personal mail-retrieval library: the verified core of a utility that
//! authenticates to one configured mail account, checks a mailbox for unseen
//! messages, and persists each new message to local disk exactly once.
//!
//! The crate holds the logic with real invariants: content-addressed
//! deduplication of stored messages (`storage`), credential handling that
//! never leaks the secret (`auth`), and the session-lifecycle and fetch-loop
//! accounting of one check operation (`check`). Network and filesystem work
//! stays with the caller, which feeds results into these functions.

pub mod auth;
pub mod check;
pub mod config;
pub mod storage;

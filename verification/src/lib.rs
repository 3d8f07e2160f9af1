//! Core of a subscriber-reminder service: inbound-event authentication and
//! dispatch, a pending-operation log merged into a canonical subscriber
//! registry by a reconciliation pass, a command-catalogue syncer, and
//! per-user append-only journals.
//!
//! The backing store offers only single-key reads and writes, so all registry
//! mutation intent is recorded as independent pending keys and folded into
//! the registry by the reconciliation pass in [`users`]; the surrounding I/O
//! lives outside this crate and hands plain values in and out.

pub mod codec;
pub mod commands;
pub mod embed;
pub mod error;
pub mod interaction;
pub mod journal;
pub mod users;
pub mod verification;

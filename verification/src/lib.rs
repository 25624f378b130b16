//! Keeps two files mirrored: the rules that decide whether a pair may be
//! synchronised, how an initial divergence is resolved, and how later changes
//! travel from one side to the other without echoing back.

pub mod digest;
pub mod paths;
pub mod classify;
pub mod error;
pub mod validate;
pub mod reconcile;
pub mod watch;
pub mod memory;
pub mod laws;

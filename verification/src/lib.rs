//! Keeps one DNS address record at Cloudflare pointed at the caller's public
//! IPv4 address.
//!
//! Nothing in this crate touches the network. It decides what to ask of the
//! provider and what to make of each answer; a driver performs the requests
//! and feeds the answers back.

pub mod cf_api;
pub mod trace;
pub mod updater;

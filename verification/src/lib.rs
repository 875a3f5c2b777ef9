//! Client library for a metadata/measurement REST API (probes, keys, credits,
//! anchors, measurements).
//!
//! The heart of the crate is the request-routing and pagination engine: pure,
//! verified logic that turns a semantic call ("get probe 666", "list credit
//! transactions") into a concrete request URL, merges caller options with
//! defaults, and follows the cursor-based pagination protocol over the pages
//! an application layer fetches.  All HTTP traffic and JSON decoding happen
//! outside this crate; the functions here compute URLs, merge options, drive
//! the page-following state machine and normalise every failure into one
//! error shape, each step with a proved contract.

pub mod anchor_measurements;
pub mod anchors;
pub mod client;
pub mod common;
pub mod config;
pub mod credits;
pub mod errors;
pub mod keys;
pub mod measurements;
pub mod option;
pub mod param;
pub mod participation_requests;
pub mod probes;
pub mod request;
pub mod strutil;

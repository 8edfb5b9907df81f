//! Verified core of an export-and-download client for a remote
//! knowledge-base service: it classifies API errors, drives the
//! export job's poll loop, analyses the archive-retrieval response
//! (including the redirect-failure recovery path), and derives the
//! timestamped backup filename.

pub mod api;
pub mod connection;
pub mod error;
pub mod fetcher;
pub mod poller;
pub mod response;
pub mod store;
pub mod text;

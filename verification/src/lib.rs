//! Hermes, a minimalist self-hosted RSS and Atom reader: the logic that
//! decides what the reader stores, whom it delivers items to, and how it
//! answers requests.
pub mod crypto;
pub mod db;
pub mod feed;
pub mod models;
pub mod number;
pub mod pattern;
pub mod router;
pub mod syndication;
pub mod template;
pub mod time;
pub mod web;

//! GitHub data models and the client's cache, rate-limit and retry decisions.

pub mod client;
pub mod models;

pub use client::GitHubClient;

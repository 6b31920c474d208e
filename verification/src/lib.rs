//! Authentication orchestration: strategy chains, the OAuth2 authorization-code
//! flow, and bearer-token validation against a cached key set.
//!
//! Everything here answers at once. Strategies, providers and stores are
//! traits for the application to implement; the key cache asks its caller to
//! fetch; the decisions of a web adapter are functions from what the adapter
//! read to what it has to send.

pub mod callback;
pub mod error;
pub mod flow;
pub mod github;
pub mod guard;
pub mod held;
pub mod jwks;
pub mod jwt;
pub mod policy;
pub mod provider;
pub mod request;
pub mod service;
pub mod session;
pub mod state;
pub mod strategy;
pub mod text;
pub mod text_map;
pub mod token;
pub mod utils;

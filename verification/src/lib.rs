//! A typed client library for the MyAnimeList REST API: query and command
//! builders that assemble request URLs and form bodies, passive data records
//! for the decoded responses, response-shape normalization, and the OAuth2
//! PKCE login flow modelled as an explicit state machine.
//!
//! The library itself performs no I/O: every public operation either builds
//! the exact request (URL, headers, body) for the caller to send, or decides
//! the next step of a flow from a value the caller hands back.

pub mod builders;
pub mod error;
pub mod jikan;
pub mod login;
pub mod models;
pub mod retrieval;
pub mod text;
pub mod transport;
pub mod user;

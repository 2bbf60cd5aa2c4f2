//! A verified client library for two picture-hosting services: a pluggable
//! HTTP transport contract, a fail-fast test transport, and two service
//! clients that build requests and deserialize typed responses.

/// JSON document model shared by both service clients
pub mod json;
/// HTTP transport contract and the test transport
pub mod http;
/// Gelbooru API module
pub mod gelbooru;
/// Boosty API module
pub mod boosty;

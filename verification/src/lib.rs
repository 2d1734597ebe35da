//! Reusable, verified primitives for Discord interaction webhooks and bot requests.
/// Validated Discord identity types.
pub mod discord;
/// Character-level text operations.
pub mod text;
/// Discord interaction payload and callback models.
pub mod interaction;
/// Discord interaction callback delivery and bot REST requests.
pub mod http;
/// Required string fields of JSON-encoded application secrets.
pub mod secrets;

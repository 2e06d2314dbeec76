//! A flexible text content block and its wire-format codec, verified.
//!
//! A block inside a chat-completion message carries either plain
//! literal text or a structured bundle of template arguments, encoded
//! as alternate keys of the same flat JSON object: `{"text": "..."}`
//! or `{"tensorzero::arguments": {...}}`. The heart of the crate is
//! the codec contract that enforces mutual exclusion between those two
//! differently typed keys — stated once in `codec`, proved for the
//! standalone value in `content` and for the message content part (and
//! its builder) in `chat`. A strict-schema sibling that instead
//! rejects every unknown key lives in `template`. The only trusted
//! code is the thin boundary to serde_json in `json`.

pub mod chat;
pub mod codec;
pub mod content;
pub mod json;
pub mod template;

//! Session tracking, command routing and listener supervision for a
//! webhook-driven chat bot.
//!
//! - `session`: one session per user, created on first contact.
//! - `commands`: the validated command table.
//! - `router`: from inbound text to a handler, honouring conversation mode.
//! - `handlers`: the built-in handlers' replies and the standard commands.
//! - `webhook`: payload decoding, response codes and platform API helpers.
//! - `supervisor`: the IP-change monitor and the listener orchestrator.
//! - `plant`: soil-moisture averaging for the plant sensor.
//! - `types`, `text`: plain data and character-level helpers.

pub mod commands;
pub mod handlers;
pub mod plant;
pub mod router;
pub mod session;
pub mod supervisor;
pub mod text;
pub mod types;
pub mod webhook;

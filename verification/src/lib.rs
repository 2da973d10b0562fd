//! The core of a chat bot with two slash commands: a greeting, and a weather
//! lookup that relays a one-line forecast for a place.
//!
//! The library decides and never performs: it reads no file, opens no
//! connection and sends no reply. Its callers do that and hand it plain values.
//!
//! - [`dispatch`]: from a command invocation to the text that answers it.
//! - [`weather`]: the forecast data types and the two-stage lookup.
//! - [`commands`]: the commands to register, as data.
//! - [`settings`]: the bot's configuration, made of three secrets.
//! - [`secrets`]: the format of the local secrets file.
//! - [`text`], [`scan`]: reading texts character by character.

pub mod commands;
pub mod dispatch;
pub mod scan;
pub mod secrets;
pub mod settings;
pub mod text;
pub mod weather;

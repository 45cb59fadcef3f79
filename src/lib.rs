//! State engine for a single-screen status display that cycles between a
//! clock, a weather summary and a scrolling mailbox message.
//!
//! `state` holds the engine: events in, refresh requests and draw commands
//! out. `weather` and `message` turn fetched data into what the engine
//! caches; `screen` lays out each view. `server` holds the checks of the
//! small web form that edits the message, and `lcd` the byte sequences that
//! drive a character LCD.

pub mod view;
pub mod digits;
pub mod weather;
pub mod message;
pub mod text;
pub mod draw;
pub mod clock;
pub mod screen;
pub mod state;
pub mod server;
pub mod lcd;

//! A watcher for new Minecraft snapshots.
//!
//! Every few minutes the watcher fetches the game's version manifest and
//! holds the latest snapshot against a stored marker. A snapshot that the
//! marker does not name is announced twice, by a push notice and by a chat
//! webhook, and then becomes the marker.
//!
//! The library performs no request and touches no file. Its surroundings do:
//! they hand each result to [`watcher::step`] as an [`protocol::Event`] and
//! get back the [`protocol::Action`] to perform next. What `step` computes
//! is written down as mathematics in [`model`], and [`laws`] proves what
//! holds of every cycle.

pub mod decimal;
pub mod documents;
pub mod elapsed;
pub mod json;
pub mod laws;
pub mod model;
pub mod notice;
pub mod protocol;
pub mod settings;
pub mod timestamp;
pub mod views;
pub mod watcher;

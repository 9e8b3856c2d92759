//! Core of a small tile-based terminal adventure game.
//!
//! A player icon moves over a tile map; water tiles drain an oxygen meter,
//! barrier tiles block movement, foreground objects can be picked up into a
//! bag, signs show messages, and quests track progress over the stream of
//! gameplay events.  The terminal renderer and keyboard driver live outside
//! this crate: the game core consumes plain key intents and produces plain
//! draw lists, a viewport origin and a message, which a thin shell forwards
//! to the rendering engine.

pub mod assoc;
pub mod game;
pub mod map;
pub mod player;
pub mod progress;
pub mod quest;
pub mod text;
pub mod utils;
pub mod viewport;

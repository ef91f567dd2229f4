//! A client for a game's rich-presence chat protocol: the login handshake, incremental
//! scanning of presence stanzas, a cache of peers' presence, a bounded traffic log, and the
//! crafting of a presence from a captured template. The library decides; the caller performs
//! the network I/O and hands back what it read.

pub mod broadcast;
pub mod codec;
pub mod config;
pub mod diagnostics;
pub mod error;
pub mod friends;
pub mod game;
pub mod handshake;
pub mod json;
pub mod log;
pub mod logging;
pub mod presence;
pub mod region;
pub mod riot;
pub mod session;
pub mod social;
pub mod stanza;
pub mod stats;
pub mod tabs;
pub mod text;
pub mod update;

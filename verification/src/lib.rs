//! A chat client and server: the framing of messages on the wire, the client's
//! view of rooms and direct channels, file streams, and the server's record of
//! who is online.
use vstd::prelude::*;

pub mod auth;
pub mod bt;
pub mod client;
pub mod connection;
pub mod console;
pub mod events;
pub mod file_selector;
pub mod images;
pub mod laws;
pub mod lines;
pub mod manager;
pub mod membership;
pub mod pty;
pub mod render;
pub mod room_creator;
pub mod room_updates;
pub mod routing;
pub mod session;
pub mod streams;
pub mod text;
pub mod threads;
pub mod types;
pub mod ui;
pub mod wire;

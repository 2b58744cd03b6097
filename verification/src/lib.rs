//! Decoding of the replies that a game server gives to info and player
//! queries, and the steps of the two exchanges that ask for them.
//!
//! `bytereader` reads the fields of a reply, `server` makes the records of
//! them, and `query` decides what goes out to the server and what to make
//! of what comes back. Nothing here touches a socket: a caller sends what
//! `query` hands out and hands back what it received.

pub mod bytereader;
pub mod duration;
pub mod error;
pub mod float32;
pub mod query;
pub mod server;
pub mod table;
mod text;

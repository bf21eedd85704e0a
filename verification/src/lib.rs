//! A server for shared project variables: clients join a project's room with
//! a handshake, and every change one client makes to a variable is kept in the
//! room and passed on to the other clients of the room.

pub mod client;
pub mod config;
pub mod laws;
pub mod protocol;
pub mod server;
pub mod status;
pub mod table;

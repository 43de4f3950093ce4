//! Terse: a terminal client for Terse answer servers.
//!
//! This crate holds the client's logic: the list of known servers and
//! which one is selected, the search menu's key handling, the messages shown
//! to the user, and the shapes of the values exchanged with a server.
//! Terminal drawing, file storage and HTTP stay with the program that uses it.
mod text;
pub mod address;
pub mod style;
pub mod account;
pub mod posts;
pub mod server;
pub mod serverlist;
pub mod tui;
pub mod search;
pub mod cli;

//! The request handling, page assembly and life cycle of the `rmc` server.
//!
//! Everything here decides; nothing here reads a file, opens a socket or waits.
//! Where the server needs something from outside, a function says what to do next
//! and a later call takes what came of it.

pub mod auth;
pub mod error;
pub mod expansion;
pub mod includes;
pub mod ipc;
pub mod laws;
pub mod lifecycle;
pub mod pages;
pub mod requests;
pub mod response;
pub mod search;
pub mod server;
pub mod status;
pub mod text;

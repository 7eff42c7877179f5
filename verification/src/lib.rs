//! The data behind a daily stand-up board: the team's members, the login
//! tokens handed out to them, and each member's report of what was done, what
//! is to do and which problems stand in the way.

pub mod model;
pub mod daily;
mod outside;
pub mod token;
pub mod server;
pub mod session;
pub mod param;
pub mod laws;

//! A note-taking library: a store of short text notes with store-assigned
//! identifiers, the parsing of the command line that drives it, and the rendering
//! of its listing.

pub mod note;
pub mod render;
pub mod store;
pub mod command;
pub mod session;
pub mod laws;
pub mod path;

//! Decisions of a Spotify Connect daemon: when to connect and reconnect, what
//! to tell the media player that drives it, and how its command line is read.
pub mod cli;
pub mod console;
pub mod ident;
pub mod json;
pub mod messages;
pub mod meta_pipe;
pub mod metadata;
pub mod options;
pub mod pipe_loop;
pub mod reconnect;
pub mod supervisor;
pub mod text;
pub mod time;

//! Decision logic of a daemon that keeps non-repeating shuffled playback
//! going on a music server: the player, playlist, library and option
//! handlers, the idle-loop dispatch and the supervisor's signal policy.
//! The I/O around it (connection, selection store, signals) lives in the
//! application crate, which performs the actions decided here.
pub mod config;
pub mod library;
pub mod options;
pub mod player;
pub mod protocol;
pub mod supervisor;
pub mod text;

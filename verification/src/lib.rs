//! Verified core of an emulator extension: on-screen-display messages, the
//! logging bridge, the background game-report queue and the decisions of the
//! music substitution engine.
//!
//! Everything here is plain computation with a proved contract. Threads,
//! sockets, files and the foreign boundary live outside this crate and drive
//! it by handing it plain values and performing the actions it returns.

pub mod exi;
pub mod ffi;
pub mod game_reporter;
pub mod json;
pub mod jukebox;
pub mod logger;
pub mod osd;
pub mod text;

//! The categories that logs are routed to. Each names a container on the
//! host's side.

use vstd::prelude::*;

verus! {

/// Used for dumping logs from dependencies that we may need to inspect. It
/// also gets the logs whose target names no registered container.
pub const DEPENDENCIES: &'static str = "SLIPPI_RUST_DEPENDENCIES";

/// The default target for EXI tracing.
pub const EXI: &'static str = "SLIPPI_RUST_EXI";

/// Logs for the game reporter.
pub const GAME_REPORTER: &'static str = "SLIPPI_RUST_GAME_REPORTER";

/// Can be used to segment Jukebox logs.
pub const JUKEBOX: &'static str = "SLIPPI_RUST_JUKEBOX";

} // verus!

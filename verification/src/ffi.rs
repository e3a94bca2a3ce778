//! What stands between the host and this library: the values that the host
//! hands over are turned into the library's own, and the objects that the
//! host holds on to are kept under numeric handles.

pub mod game_reporter;
pub mod handles;

pub use crate::text::c_str_to_string;

use vstd::prelude::*;

verus! {

/// Name of the application, used as the window title.
pub const APP_NAME: &'static str = "Stremio";

/// Smallest width the main window may take.
pub const WINDOW_MIN_WIDTH: i32 = 1000;

/// Smallest height the main window may take.
pub const WINDOW_MIN_HEIGHT: i32 = 600;

/// Seconds between two checks for updates (twelve hours).
pub const UPDATE_INTERVAL: u64 = 43200;

/// Size of the buffer used for the server's output.
pub const SRV_BUFFER_SIZE: usize = 1024;

/// Number of server log lines that are kept.
pub const SRV_LOG_SIZE: usize = 20;

} // verus!

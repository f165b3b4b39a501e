//! Fixed facts about the console and the program.

use vstd::prelude::*;

verus! {

/// Width of the top screen, in pixels.
pub const SCREEN_TOP_WIDTH: i64 = 400;

/// Width of the bottom screen, in pixels.
pub const SCREEN_BOTTOM_WIDTH: i64 = 320;

/// Height of either screen, in pixels.
pub const SCREEN_HEIGHT: i64 = 240;

/// Where the log file is kept.
pub const SAVE_LOG_PATH: &'static str = "/config/cook-screen/log/log.txt";

/// Characters that a file name typed on the software keyboard may not hold.
pub const INVALID_CHARS: [char; 10] = ['\\', '/', ':', '*', '?', '"', '\'', '<', '>', '|'];

/// The release this source belongs to.
pub const VERSION_STR: &'static str = "v2024.10.28";

} // verus!

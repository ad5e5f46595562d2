//! ANSI color codes for terminal output.

use vstd::prelude::*;

verus! {

pub const RESET: &'static str = "\x1b[0m";
pub const BOLD: &'static str = "\x1b[1m";
pub const GREEN: &'static str = "\x1b[32m";
pub const RED: &'static str = "\x1b[31m";
pub const YELLOW: &'static str = "\x1b[33m";
pub const BLUE: &'static str = "\x1b[34m";
pub const CYAN: &'static str = "\x1b[36m";
pub const GRAY: &'static str = "\x1b[90m";
pub const BRIGHT_GREEN: &'static str = "\x1b[92m";
pub const BRIGHT_BLUE: &'static str = "\x1b[94m";
pub const BRIGHT_CYAN: &'static str = "\x1b[96m";

} // verus!

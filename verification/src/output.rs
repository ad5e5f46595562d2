//! Colored terminal messages and operation banners.

use vstd::prelude::*;
use crate::colors;
use crate::text::str_eq;

verus! {

/// Calls `atty::is(atty::Stream::Stdout)`, which asks the operating system
/// whether standard output is a terminal. The answer depends on how the
/// process was started, so nothing is stated of it.
#[verifier::external_body]
pub(crate) fn stdout_is_terminal() -> bool {
    atty::is(atty::Stream::Stdout)
}

/// `text` wrapped in `color` and the reset code when coloring is on.
pub open spec fn painted(text: Seq<char>, color: Seq<char>, enabled: bool) -> Seq<char> {
    if enabled {
        color + text + colors::RESET@
    } else {
        text
    }
}

/// Wraps `text` in `color` and the reset code when `enabled`.
pub fn paint(text: &str, color: &str, enabled: bool) -> (res: String)
    ensures
        res@ == painted(text@, color@, enabled),
{
    if enabled {
        let mut s = String::from_str(color);
        s.append(text);
        s.append(colors::RESET);
        s
    } else {
        String::from_str(text)
    }
}

/// Whether output is colored, given whether `NO_COLOR` is set
/// (`no_color`) and whether standard output is a terminal: exactly when
/// `NO_COLOR` is not set and output goes to a terminal.
pub fn coloring_for(no_color: bool, is_terminal: bool) -> (res: bool)
    ensures
        res == (!no_color && is_terminal),
{
    !no_color && is_terminal
}

/// Whether output is colored: never when `NO_COLOR` is set (`no_color`),
/// otherwise exactly when standard output is a terminal, as the operating
/// system answers.
pub fn color_enabled(no_color: bool) -> (res: bool)
    ensures
        exists|is_terminal: bool| res == coloring_for_spec(no_color, is_terminal),
{
    let is_terminal = stdout_is_terminal();
    let res = coloring_for(no_color, is_terminal);
    assert(res == coloring_for_spec(no_color, is_terminal));
    res
}

/// Whether output is colored, as `coloring_for` decides it.
pub open spec fn coloring_for_spec(no_color: bool, is_terminal: bool) -> bool {
    !no_color && is_terminal
}

/// `res` is `text` as `colorize` prints it under the given `NO_COLOR`
/// setting, for some answer to whether output is a terminal.
pub open spec fn colorized(res: Seq<char>, text: Seq<char>, color: Seq<char>, no_color: bool) -> bool {
    exists|is_terminal: bool| res == #[trigger] painted(text, color, coloring_for_spec(no_color, is_terminal))
}

/// `text` in `color`, given whether `NO_COLOR` is set and whether standard
/// output is a terminal: painted exactly when `NO_COLOR` is not set and
/// output goes to a terminal.
pub fn colorize_for(text: &str, color: &str, no_color: bool, is_terminal: bool) -> (res: String)
    ensures
        res@ == painted(text@, color@, !no_color && is_terminal),
{
    let on = coloring_for(no_color, is_terminal);
    paint(text, color, on)
}

/// Format text with color; `no_color` tells whether `NO_COLOR` is set, and
/// standard output is asked whether it is a terminal.
pub fn colorize(text: &str, color: &str, no_color: bool) -> (res: String)
    ensures
        colorized(res@, text@, color@, no_color),
{
    let is_terminal = stdout_is_terminal();
    let res = colorize_for(text, color, no_color, is_terminal);
    assert(res@ == painted(text@, color@, coloring_for_spec(no_color, is_terminal)));
    res
}

fn prefixed(prefix: &str, text: &str) -> (res: String)
    ensures
        res@ == prefix@ + text@,
{
    let mut s = String::from_str(prefix);
    s.append(text);
    s
}

/// The success message for `text`: green, given whether `NO_COLOR` is set
/// and whether output is a terminal.
pub fn success_for(text: &str, no_color: bool, is_terminal: bool) -> (res: String)
    ensures
        res@ == painted("✅ "@ + text@, colors::BRIGHT_GREEN@, !no_color && is_terminal),
{
    let t = prefixed("✅ ", text);
    colorize_for(t.as_str(), colors::BRIGHT_GREEN, no_color, is_terminal)
}

/// The error message for `text`: red, given whether `NO_COLOR` is set and
/// whether output is a terminal.
pub fn error_for(text: &str, no_color: bool, is_terminal: bool) -> (res: String)
    ensures
        res@ == painted("❌ "@ + text@, colors::RED@, !no_color && is_terminal),
{
    let t = prefixed("❌ ", text);
    colorize_for(t.as_str(), colors::RED, no_color, is_terminal)
}

/// The warning message for `text`: yellow, given whether `NO_COLOR` is set
/// and whether output is a terminal.
pub fn warning_for(text: &str, no_color: bool, is_terminal: bool) -> (res: String)
    ensures
        res@ == painted("⚠️ "@ + text@, colors::YELLOW@, !no_color && is_terminal),
{
    let t = prefixed("⚠️ ", text);
    colorize_for(t.as_str(), colors::YELLOW, no_color, is_terminal)
}

/// The information message for `text`: blue, given whether `NO_COLOR` is
/// set and whether output is a terminal.
pub fn info_for(text: &str, no_color: bool, is_terminal: bool) -> (res: String)
    ensures
        res@ == painted("ℹ️ "@ + text@, colors::BRIGHT_BLUE@, !no_color && is_terminal),
{
    let t = prefixed("ℹ️ ", text);
    colorize_for(t.as_str(), colors::BRIGHT_BLUE, no_color, is_terminal)
}

/// A path in cyan, given whether `NO_COLOR` is set and whether output is a
/// terminal.
pub fn path_for(text: &str, no_color: bool, is_terminal: bool) -> (res: String)
    ensures
        res@ == painted(text@, colors::BRIGHT_CYAN@, !no_color && is_terminal),
{
    colorize_for(text, colors::BRIGHT_CYAN, no_color, is_terminal)
}

/// Create success message with green color.
pub fn success(text: &str, no_color: bool) -> (res: String)
    ensures
        colorized(res@, "✅ "@ + text@, colors::BRIGHT_GREEN@, no_color),
{
    let is_terminal = stdout_is_terminal();
    let res = success_for(text, no_color, is_terminal);
    assert(res@ == painted("✅ "@ + text@, colors::BRIGHT_GREEN@, coloring_for_spec(no_color, is_terminal)));
    res
}

/// Create error message with red color.
pub fn error(text: &str, no_color: bool) -> (res: String)
    ensures
        colorized(res@, "❌ "@ + text@, colors::RED@, no_color),
{
    let is_terminal = stdout_is_terminal();
    let res = error_for(text, no_color, is_terminal);
    assert(res@ == painted("❌ "@ + text@, colors::RED@, coloring_for_spec(no_color, is_terminal)));
    res
}

/// Create warning message with yellow color.
pub fn warning(text: &str, no_color: bool) -> (res: String)
    ensures
        colorized(res@, "⚠️ "@ + text@, colors::YELLOW@, no_color),
{
    let is_terminal = stdout_is_terminal();
    let res = warning_for(text, no_color, is_terminal);
    assert(res@ == painted("⚠️ "@ + text@, colors::YELLOW@, coloring_for_spec(no_color, is_terminal)));
    res
}

/// Create info message with blue color.
pub fn info(text: &str, no_color: bool) -> (res: String)
    ensures
        colorized(res@, "ℹ️ "@ + text@, colors::BRIGHT_BLUE@, no_color),
{
    let is_terminal = stdout_is_terminal();
    let res = info_for(text, no_color, is_terminal);
    assert(res@ == painted("ℹ️ "@ + text@, colors::BRIGHT_BLUE@, coloring_for_spec(no_color, is_terminal)));
    res
}

/// Create path text with cyan color.
pub fn path(text: &str, no_color: bool) -> (res: String)
    ensures
        colorized(res@, text@, colors::BRIGHT_CYAN@, no_color),
{
    let is_terminal = stdout_is_terminal();
    let res = path_for(text, no_color, is_terminal);
    assert(res@ == painted(text@, colors::BRIGHT_CYAN@, coloring_for_spec(no_color, is_terminal)));
    res
}

/// The ASCII art banner for an operation.
pub open spec fn banner(operation: Seq<char>) -> Seq<char> {
    if operation == "build"@ {
        "┌─────────────────────────────────┐\n│ 🔨 BUILDING NOIR CIRCUIT       │\n└─────────────────────────────────┘"@
    } else if operation == "prove"@ {
        "┌─────────────────────────────────┐\n│ 🔐 GENERATING PROOF & VK        │\n└─────────────────────────────────┘"@
    } else if operation == "verify"@ {
        "┌─────────────────────────────────┐\n│ ✅ VERIFYING PROOF              │\n└─────────────────────────────────┘"@
    } else if operation == "solidity"@ {
        "┌─────────────────────────────────┐\n│ 📄 GENERATING SOLIDITY VERIFIER │\n└─────────────────────────────────┘"@
    } else if operation == "clean"@ {
        "┌─────────────────────────────────┐\n│ 🧹 CLEANING BUILD ARTIFACTS    │\n└─────────────────────────────────┘"@
    } else if operation == "check"@ {
        "┌─────────────────────────────────┐\n│ 🔍 CHECKING CIRCUIT SYNTAX      │\n└─────────────────────────────────┘"@
    } else {
        "┌────────────────────────────────┐\n│ 🚀 RUNNING BARGO OPERATION      │\n└─────────────────────────────────┘"@
    }
}

/// The ASCII art banner that `print_banner` shows for an operation.
pub fn banner_text(operation: &str) -> (res: &'static str)
    ensures
        res@ == banner(operation@),
{
    if str_eq(operation, "build") {
        return "┌─────────────────────────────────┐\n│ 🔨 BUILDING NOIR CIRCUIT       │\n└─────────────────────────────────┘";
    }
    if str_eq(operation, "prove") {
        return "┌─────────────────────────────────┐\n│ 🔐 GENERATING PROOF & VK        │\n└─────────────────────────────────┘";
    }
    if str_eq(operation, "verify") {
        return "┌─────────────────────────────────┐\n│ ✅ VERIFYING PROOF              │\n└─────────────────────────────────┘";
    }
    if str_eq(operation, "solidity") {
        return "┌─────────────────────────────────┐\n│ 📄 GENERATING SOLIDITY VERIFIER │\n└─────────────────────────────────┘";
    }
    if str_eq(operation, "clean") {
        return "┌─────────────────────────────────┐\n│ 🧹 CLEANING BUILD ARTIFACTS    │\n└─────────────────────────────────┘";
    }
    if str_eq(operation, "check") {
        return "┌─────────────────────────────────┐\n│ 🔍 CHECKING CIRCUIT SYNTAX      │\n└─────────────────────────────────┘";
    }
    "┌────────────────────────────────┐\n│ 🚀 RUNNING BARGO OPERATION      │\n└─────────────────────────────────┘"
}

} // verus!

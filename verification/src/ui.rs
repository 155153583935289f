use crate::cli::ui::{colored, Color, ATTENUATE, ERROR, HIGHLIGHT, RESET};
use vstd::prelude::*;
use vstd::string::StringExecFns;

verus! {

/// The code that makes a title bold, underlined and bright white.
pub const BRIGHT_TITLE: &'static str = "\x1b[1;4;97m";

/// `string` in bright red.
pub fn color_error(string: &str) -> (out: String)
    ensures
        out@ == colored(ERROR@, string@, false),
{
    Color::error(string, false)
}

/// `string` in bright green.
pub fn color_highlight(string: &str) -> (out: String)
    ensures
        out@ == colored(HIGHLIGHT@, string@, false),
{
    Color::highlight(string, false)
}

/// `string` in grey.
pub fn color_attenuate(string: &str) -> (out: String)
    ensures
        out@ == colored(ATTENUATE@, string@, false),
{
    Color::attenuate(string, false)
}

/// `string` in bright white, bold and underlined.
pub fn color_title(string: &str) -> (out: String)
    ensures
        out@ == colored(BRIGHT_TITLE@, string@, false),
{
    let mut out = String::from_str(BRIGHT_TITLE);
    out.append(string);
    out.append(RESET);
    out
}

} // verus!

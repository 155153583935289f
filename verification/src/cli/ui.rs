use vstd::prelude::*;
use vstd::string::StringExecFns;

verus! {

/// The code that switches bright red on.
pub const ERROR: &'static str = "\x1b[0;91m";

/// The code that switches bright green on.
pub const HIGHLIGHT: &'static str = "\x1b[0;92m";

/// The code that switches grey on.
pub const ATTENUATE: &'static str = "\x1b[0;90m";

/// The code that switches bold and underlined on.
pub const TITLE: &'static str = "\x1b[1;4m";

/// The code that switches all of them off.
pub const RESET: &'static str = "\x1b[0m";

/// `text` in the colour that `color` switches on, with the code that
/// switches it off behind it, so that what follows is not coloured. In
/// no-colour mode the text stays as it is.
pub open spec fn colored(color: Seq<char>, text: Seq<char>, no_color: bool) -> Seq<char> {
    if no_color {
        text
    } else {
        color + text + RESET@
    }
}

/// Colours text for a terminal, unless colours are switched off.
pub struct Color;

impl Color {
    /// `string` as an error: in bright red.
    pub fn error(string: &str, no_color: bool) -> (out: String)
        ensures
            out@ == colored(ERROR@, string@, no_color),
    {
        Self::color(ERROR, string, no_color)
    }

    /// `string` as what matters: in bright green.
    pub fn highlight(string: &str, no_color: bool) -> (out: String)
        ensures
            out@ == colored(HIGHLIGHT@, string@, no_color),
    {
        Self::color(HIGHLIGHT, string, no_color)
    }

    /// `string` as what matters less: in grey.
    pub fn attenuate(string: &str, no_color: bool) -> (out: String)
        ensures
            out@ == colored(ATTENUATE@, string@, no_color),
    {
        Self::color(ATTENUATE, string, no_color)
    }

    /// `string` as a title: bold and underlined.
    pub fn title(string: &str, no_color: bool) -> (out: String)
        ensures
            out@ == colored(TITLE@, string@, no_color),
    {
        Self::color(TITLE, string, no_color)
    }

    /// Colours a string of text, reset code included.
    fn color(color: &str, string: &str, no_color: bool) -> (out: String)
        ensures
            out@ == colored(color@, string@, no_color),
    {
        if no_color {
            return String::from_str(string);
        }
        let mut out = String::from_str(color);
        out.append(string);
        out.append(RESET);
        out
    }

    /// The colour code itself, or nothing in no-colour mode.
    pub fn maybe_color<'a>(color: &'a str, no_color: bool) -> (out: &'a str)
        ensures
            out@ == if no_color {
                Seq::<char>::empty()
            } else {
                color@
            },
    {
        if no_color {
            proof {
                reveal_strlit("");
            }
            return "";
        }
        color
    }
}

} // verus!

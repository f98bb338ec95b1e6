//! Terminal color and formatting helpers for diagnostic output; no
//! behavioral effect on the generated code.
pub mod bgcolors;
pub mod colors;

use crate::text::dec_digits;
use crate::text::usize_to_string;
use vstd::prelude::*;
use vstd::string::StringExecFns;

verus! {

/// Highlight mode enum.
#[derive(Debug, PartialEq, Eq, Clone, Copy, Structural)]
pub enum HighlightMode {
    NoColor,
    Color16,
    Color256,
    TrueColor,
}

/// Compares two string slices by their character sequences.
pub fn str_eq(a: &str, b: &str) -> (r: bool)
    ensures
        r == (a@ == b@),
{
    let sa = String::from_str(a);
    let sb = String::from_str(b);
    sa == sb
}

impl HighlightMode {
    /// Parses a mode name; anything unrecognized disables color.
    pub fn from_str(s: &str) -> (r: HighlightMode)
        ensures
            r == (if s@ == "false"@ {
                HighlightMode::NoColor
            } else if s@ == "16"@ {
                HighlightMode::Color16
            } else if s@ == "256"@ {
                HighlightMode::Color256
            } else if s@ == "true"@ {
                HighlightMode::TrueColor
            } else {
                HighlightMode::NoColor
            }),
    {
        if str_eq(s, "false") {
            HighlightMode::NoColor
        } else if str_eq(s, "16") {
            HighlightMode::Color16
        } else if str_eq(s, "256") {
            HighlightMode::Color256
        } else if str_eq(s, "true") {
            HighlightMode::TrueColor
        } else {
            HighlightMode::NoColor
        }
    }
}

/// The escape sequence that restores default terminal attributes.
pub open spec fn reset_seq(mode: HighlightMode) -> Seq<char> {
    match mode {
        HighlightMode::NoColor => Seq::<char>::empty(),
        _ => "\x1b[0m"@,
    }
}

/// Returns the reset escape sequence.
pub fn reset(mode: &HighlightMode) -> (r: String)
    ensures
        r@ == reset_seq(*mode),
{
    match mode {
        HighlightMode::NoColor => String::new(),
        _ => String::from_str("\x1b[0m"),
    }
}

/// The sixteen-color code for parenthesis depth `i`, which cycles
/// through six bright colors.
pub open spec fn paren_code_16(i: nat) -> nat {
    if i == 0 {
        91
    } else if i == 1 {
        92
    } else if i == 2 {
        93
    } else if i == 3 {
        94
    } else if i == 4 {
        95
    } else {
        96
    }
}

/// The 256-color palette entry for parenthesis depth `i`.
pub open spec fn paren_code_256(i: nat) -> nat {
    if i == 0 {
        196
    } else if i == 1 {
        202
    } else if i == 2 {
        208
    } else if i == 3 {
        214
    } else if i == 4 {
        220
    } else {
        226
    }
}

/// The truecolor palette entry for parenthesis depth `i`.
pub open spec fn paren_rgb(i: nat) -> (nat, nat, nat) {
    if i == 0 {
        (164, 219, 211)
    } else if i == 1 {
        (217, 201, 145)
    } else if i == 2 {
        (145, 189, 217)
    } else if i == 3 {
        (217, 187, 145)
    } else {
        (132, 137, 140)
    }
}

/// The escape sequence coloring an opening parenthesis at `depth`.
pub open spec fn paren_color_seq(depth: nat, mode: HighlightMode) -> Seq<char> {
    match mode {
        HighlightMode::NoColor => Seq::<char>::empty(),
        HighlightMode::Color16 => "\x1b["@ + dec_digits(paren_code_16(depth % 6)) + "m"@,
        HighlightMode::Color256 => "\x1b[38;5;"@ + dec_digits(paren_code_256(depth % 6)) + "m"@,
        HighlightMode::TrueColor => "\x1b[38;2;"@ + dec_digits(paren_rgb(depth % 5).0) + ";"@
            + dec_digits(paren_rgb(depth % 5).1) + ";"@ + dec_digits(paren_rgb(depth % 5).2)
            + "m"@,
    }
}

/// Returns an escape code for opening parentheses color based on depth.
pub fn paren_color(depth: usize, mode: &HighlightMode) -> (r: String)
    ensures
        r@ == paren_color_seq(depth as nat, *mode),
{
    match mode {
        HighlightMode::NoColor => String::new(),
        HighlightMode::Color16 => {
            let i = depth % 6;
            let code: usize = if i == 0 {
                91
            } else if i == 1 {
                92
            } else if i == 2 {
                93
            } else if i == 3 {
                94
            } else if i == 4 {
                95
            } else {
                96
            };
            let mut r = String::from_str("\x1b[");
            let d = usize_to_string(code);
            r.append(d.as_str());
            r.append("m");
            proof {
                assert(r@ =~= paren_color_seq(depth as nat, *mode));
            }
            r
        },
        HighlightMode::Color256 => {
            let i = depth % 6;
            let code: usize = if i == 0 {
                196
            } else if i == 1 {
                202
            } else if i == 2 {
                208
            } else if i == 3 {
                214
            } else if i == 4 {
                220
            } else {
                226
            };
            let mut r = String::from_str("\x1b[38;5;");
            let d = usize_to_string(code);
            r.append(d.as_str());
            r.append("m");
            proof {
                assert(r@ =~= paren_color_seq(depth as nat, *mode));
            }
            r
        },
        HighlightMode::TrueColor => {
            let i = depth % 5;
            let (cr, cg, cb): (usize, usize, usize) = if i == 0 {
                (164, 219, 211)
            } else if i == 1 {
                (217, 201, 145)
            } else if i == 2 {
                (145, 189, 217)
            } else if i == 3 {
                (217, 187, 145)
            } else {
                (132, 137, 140)
            };
            let mut r = String::from_str("\x1b[38;2;");
            let dr = usize_to_string(cr);
            r.append(dr.as_str());
            r.append(";");
            let dg = usize_to_string(cg);
            r.append(dg.as_str());
            r.append(";");
            let db = usize_to_string(cb);
            r.append(db.as_str());
            r.append("m");
            proof {
                assert(r@ =~= paren_color_seq(depth as nat, *mode));
            }
            r
        },
    }
}

/// The colorized rendering of `text` under the named foreground
/// color: the color's escape, the text, then the reset escape; an
/// unknown color name leaves the text bare, and no-color mode leaves
/// it untouched.
pub open spec fn colorize_seq(text: Seq<char>, color: Seq<char>, mode: HighlightMode) -> Seq<
    char,
> {
    if mode is NoColor {
        text
    } else {
        (if color == "pink"@ {
            colors::pink_seq(mode)
        } else if color == "blue"@ {
            colors::blue_seq(mode)
        } else if color == "white"@ {
            colors::white_seq(mode)
        } else if color == "green"@ {
            colors::green_seq(mode)
        } else if color == "red"@ {
            colors::red_seq(mode)
        } else {
            Seq::<char>::empty()
        }) + text + reset_seq(mode)
    }
}

/// Colorize a plain string with the given color (by name) for foreground.
pub fn colorize_plain(text: &str, color: &str, mode: &HighlightMode) -> (r: String)
    ensures
        r@ == colorize_seq(text@, color@, *mode),
{
    if matches!(mode, HighlightMode::NoColor) {
        return String::from_str(text);
    }
    let mut r = if str_eq(color, "pink") {
        colors::pink(mode)
    } else if str_eq(color, "blue") {
        colors::blue(mode)
    } else if str_eq(color, "white") {
        colors::white(mode)
    } else if str_eq(color, "green") {
        colors::green(mode)
    } else if str_eq(color, "red") {
        colors::red(mode)
    } else {
        String::new()
    };
    r.append(text);
    let rst = reset(mode);
    r.append(rst.as_str());
    r
}

} // verus!

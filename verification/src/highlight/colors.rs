//! Foreground color functions.
use crate::highlight::HighlightMode;
use vstd::prelude::*;
use vstd::string::StringExecFns;

verus! {

/// The escape sequence that `pink` emits under each mode.
pub open spec fn pink_seq(mode: HighlightMode) -> Seq<char> {
    match mode {
        HighlightMode::Color16 => "\x1b[35m"@,
        HighlightMode::Color256 => "\x1b[38;5;207m"@,
        HighlightMode::TrueColor => "\x1b[38;2;250;105;200m"@,
        HighlightMode::NoColor => Seq::<char>::empty(),
    }
}

pub fn pink(mode: &HighlightMode) -> (r: String)
    ensures
        r@ == pink_seq(*mode),
{
    match mode {
        HighlightMode::Color16 => String::from_str("\x1b[35m"),
        HighlightMode::Color256 => String::from_str("\x1b[38;5;207m"),
        HighlightMode::TrueColor => String::from_str("\x1b[38;2;250;105;200m"),
        HighlightMode::NoColor => String::new(),
    }
}

/// The escape sequence that `blue` emits under each mode.
pub open spec fn blue_seq(mode: HighlightMode) -> Seq<char> {
    match mode {
        HighlightMode::Color16 => "\x1b[34m"@,
        HighlightMode::Color256 => "\x1b[38;5;27m"@,
        HighlightMode::TrueColor => "\x1b[38;2;50;50;255m"@,
        HighlightMode::NoColor => Seq::<char>::empty(),
    }
}

pub fn blue(mode: &HighlightMode) -> (r: String)
    ensures
        r@ == blue_seq(*mode),
{
    match mode {
        HighlightMode::Color16 => String::from_str("\x1b[34m"),
        HighlightMode::Color256 => String::from_str("\x1b[38;5;27m"),
        HighlightMode::TrueColor => String::from_str("\x1b[38;2;50;50;255m"),
        HighlightMode::NoColor => String::new(),
    }
}

/// The escape sequence that `white` emits under each mode.
pub open spec fn white_seq(mode: HighlightMode) -> Seq<char> {
    match mode {
        HighlightMode::Color16 => "\x1b[37m"@,
        HighlightMode::Color256 => "\x1b[38;5;15m"@,
        HighlightMode::TrueColor => "\x1b[38;2;255;255;255m"@,
        HighlightMode::NoColor => Seq::<char>::empty(),
    }
}

pub fn white(mode: &HighlightMode) -> (r: String)
    ensures
        r@ == white_seq(*mode),
{
    match mode {
        HighlightMode::Color16 => String::from_str("\x1b[37m"),
        HighlightMode::Color256 => String::from_str("\x1b[38;5;15m"),
        HighlightMode::TrueColor => String::from_str("\x1b[38;2;255;255;255m"),
        HighlightMode::NoColor => String::new(),
    }
}

/// The escape sequence that `green` emits under each mode.
pub open spec fn green_seq(mode: HighlightMode) -> Seq<char> {
    match mode {
        HighlightMode::Color16 => "\x1b[32m"@,
        HighlightMode::Color256 => "\x1b[38;5;82m"@,
        HighlightMode::TrueColor => "\x1b[38;2;100;230;60m"@,
        HighlightMode::NoColor => Seq::<char>::empty(),
    }
}

pub fn green(mode: &HighlightMode) -> (r: String)
    ensures
        r@ == green_seq(*mode),
{
    match mode {
        HighlightMode::Color16 => String::from_str("\x1b[32m"),
        HighlightMode::Color256 => String::from_str("\x1b[38;5;82m"),
        HighlightMode::TrueColor => String::from_str("\x1b[38;2;100;230;60m"),
        HighlightMode::NoColor => String::new(),
    }
}

/// The escape sequence that `red` emits under each mode.
pub open spec fn red_seq(mode: HighlightMode) -> Seq<char> {
    match mode {
        HighlightMode::Color16 => "\x1b[31m"@,
        HighlightMode::Color256 => "\x1b[38;5;196m"@,
        HighlightMode::TrueColor => "\x1b[38;2;250;80;50m"@,
        HighlightMode::NoColor => Seq::<char>::empty(),
    }
}

pub fn red(mode: &HighlightMode) -> (r: String)
    ensures
        r@ == red_seq(*mode),
{
    match mode {
        HighlightMode::Color16 => String::from_str("\x1b[31m"),
        HighlightMode::Color256 => String::from_str("\x1b[38;5;196m"),
        HighlightMode::TrueColor => String::from_str("\x1b[38;2;250;80;50m"),
        HighlightMode::NoColor => String::new(),
    }
}

/// The escape sequence that `yellow` emits under each mode.
pub open spec fn yellow_seq(mode: HighlightMode) -> Seq<char> {
    match mode {
        HighlightMode::Color16 => "\x1b[33m"@,
        HighlightMode::Color256 => "\x1b[38;5;11m"@,
        HighlightMode::TrueColor => "\x1b[38;2;240;230;0m"@,
        HighlightMode::NoColor => Seq::<char>::empty(),
    }
}

pub fn yellow(mode: &HighlightMode) -> (r: String)
    ensures
        r@ == yellow_seq(*mode),
{
    match mode {
        HighlightMode::Color16 => String::from_str("\x1b[33m"),
        HighlightMode::Color256 => String::from_str("\x1b[38;5;11m"),
        HighlightMode::TrueColor => String::from_str("\x1b[38;2;240;230;0m"),
        HighlightMode::NoColor => String::new(),
    }
}

/// The escape sequence that `orange` emits under each mode.
pub open spec fn orange_seq(mode: HighlightMode) -> Seq<char> {
    match mode {
        HighlightMode::Color16 => "\x1b[33m"@,
        HighlightMode::Color256 => "\x1b[38;5;208m"@,
        HighlightMode::TrueColor => "\x1b[38;2;255;165;0m"@,
        HighlightMode::NoColor => Seq::<char>::empty(),
    }
}

pub fn orange(mode: &HighlightMode) -> (r: String)
    ensures
        r@ == orange_seq(*mode),
{
    match mode {
        HighlightMode::Color16 => String::from_str("\x1b[33m"),
        HighlightMode::Color256 => String::from_str("\x1b[38;5;208m"),
        HighlightMode::TrueColor => String::from_str("\x1b[38;2;255;165;0m"),
        HighlightMode::NoColor => String::new(),
    }
}

/// The escape sequence that `lightblue` emits under each mode.
pub open spec fn lightblue_seq(mode: HighlightMode) -> Seq<char> {
    match mode {
        HighlightMode::Color16 => "\x1b[94m"@,
        HighlightMode::Color256 => "\x1b[38;5;153m"@,
        HighlightMode::TrueColor => "\x1b[38;2;53;255;255m"@,
        HighlightMode::NoColor => Seq::<char>::empty(),
    }
}

pub fn lightblue(mode: &HighlightMode) -> (r: String)
    ensures
        r@ == lightblue_seq(*mode),
{
    match mode {
        HighlightMode::Color16 => String::from_str("\x1b[94m"),
        HighlightMode::Color256 => String::from_str("\x1b[38;5;153m"),
        HighlightMode::TrueColor => String::from_str("\x1b[38;2;53;255;255m"),
        HighlightMode::NoColor => String::new(),
    }
}

} // verus!

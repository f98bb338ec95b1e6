//! Background color functions.
use crate::highlight::HighlightMode;
use vstd::prelude::*;
use vstd::string::StringExecFns;

verus! {

/// The escape sequence that `pink` emits under each mode.
pub open spec fn pink_seq(mode: HighlightMode) -> Seq<char> {
    match mode {
        HighlightMode::Color16 => "\x1b[45m"@,
        HighlightMode::Color256 => "\x1b[48;5;88m"@,
        HighlightMode::TrueColor => "\x1b[48;2;60;20;60m"@,
        HighlightMode::NoColor => Seq::<char>::empty(),
    }
}

pub fn pink(mode: &HighlightMode) -> (r: String)
    ensures
        r@ == pink_seq(*mode),
{
    match mode {
        HighlightMode::Color16 => String::from_str("\x1b[45m"),
        HighlightMode::Color256 => String::from_str("\x1b[48;5;88m"),
        HighlightMode::TrueColor => String::from_str("\x1b[48;2;60;20;60m"),
        HighlightMode::NoColor => String::new(),
    }
}

/// The escape sequence that `blue` emits under each mode.
pub open spec fn blue_seq(mode: HighlightMode) -> Seq<char> {
    match mode {
        HighlightMode::Color16 => "\x1b[44m"@,
        HighlightMode::Color256 => "\x1b[48;5;18m"@,
        HighlightMode::TrueColor => "\x1b[48;2;20;30;60m"@,
        HighlightMode::NoColor => Seq::<char>::empty(),
    }
}

pub fn blue(mode: &HighlightMode) -> (r: String)
    ensures
        r@ == blue_seq(*mode),
{
    match mode {
        HighlightMode::Color16 => String::from_str("\x1b[44m"),
        HighlightMode::Color256 => String::from_str("\x1b[48;5;18m"),
        HighlightMode::TrueColor => String::from_str("\x1b[48;2;20;30;60m"),
        HighlightMode::NoColor => String::new(),
    }
}

/// The escape sequence that `white` emits under each mode.
pub open spec fn white_seq(mode: HighlightMode) -> Seq<char> {
    match mode {
        HighlightMode::Color16 => "\x1b[47m"@,
        HighlightMode::Color256 => "\x1b[48;5;237m"@,
        HighlightMode::TrueColor => "\x1b[48;2;40;40;40m"@,
        HighlightMode::NoColor => Seq::<char>::empty(),
    }
}

pub fn white(mode: &HighlightMode) -> (r: String)
    ensures
        r@ == white_seq(*mode),
{
    match mode {
        HighlightMode::Color16 => String::from_str("\x1b[47m"),
        HighlightMode::Color256 => String::from_str("\x1b[48;5;237m"),
        HighlightMode::TrueColor => String::from_str("\x1b[48;2;40;40;40m"),
        HighlightMode::NoColor => String::new(),
    }
}

/// The escape sequence that `yellow` emits under each mode.
pub open spec fn yellow_seq(mode: HighlightMode) -> Seq<char> {
    match mode {
        HighlightMode::Color16 => "\x1b[43m"@,
        HighlightMode::Color256 => "\x1b[48;5;100m"@,
        HighlightMode::TrueColor => "\x1b[48;2;60;60;20m"@,
        HighlightMode::NoColor => Seq::<char>::empty(),
    }
}

pub fn yellow(mode: &HighlightMode) -> (r: String)
    ensures
        r@ == yellow_seq(*mode),
{
    match mode {
        HighlightMode::Color16 => String::from_str("\x1b[43m"),
        HighlightMode::Color256 => String::from_str("\x1b[48;5;100m"),
        HighlightMode::TrueColor => String::from_str("\x1b[48;2;60;60;20m"),
        HighlightMode::NoColor => String::new(),
    }
}

/// The escape sequence that `orange` emits under each mode.
pub open spec fn orange_seq(mode: HighlightMode) -> Seq<char> {
    match mode {
        HighlightMode::Color16 => "\x1b[43m"@,
        HighlightMode::Color256 => "\x1b[48;5;95m"@,
        HighlightMode::TrueColor => "\x1b[48;2;70;40;10m"@,
        HighlightMode::NoColor => Seq::<char>::empty(),
    }
}

pub fn orange(mode: &HighlightMode) -> (r: String)
    ensures
        r@ == orange_seq(*mode),
{
    match mode {
        HighlightMode::Color16 => String::from_str("\x1b[43m"),
        HighlightMode::Color256 => String::from_str("\x1b[48;5;95m"),
        HighlightMode::TrueColor => String::from_str("\x1b[48;2;70;40;10m"),
        HighlightMode::NoColor => String::new(),
    }
}

/// The escape sequence that `lightblue` emits under each mode.
pub open spec fn lightblue_seq(mode: HighlightMode) -> Seq<char> {
    match mode {
        HighlightMode::Color16 => "\x1b[104m"@,
        HighlightMode::Color256 => "\x1b[48;5;20m"@,
        HighlightMode::TrueColor => "\x1b[48;2;20;40;120m"@,
        HighlightMode::NoColor => Seq::<char>::empty(),
    }
}

pub fn lightblue(mode: &HighlightMode) -> (r: String)
    ensures
        r@ == lightblue_seq(*mode),
{
    match mode {
        HighlightMode::Color16 => String::from_str("\x1b[104m"),
        HighlightMode::Color256 => String::from_str("\x1b[48;5;20m"),
        HighlightMode::TrueColor => String::from_str("\x1b[48;2;20;40;120m"),
        HighlightMode::NoColor => String::new(),
    }
}

/// The escape sequence that `green` emits under each mode.
pub open spec fn green_seq(mode: HighlightMode) -> Seq<char> {
    match mode {
        HighlightMode::Color16 => "\x1b[42m"@,
        HighlightMode::Color256 => "\x1b[48;5;64m"@,
        HighlightMode::TrueColor => "\x1b[48;2;40;80;24m"@,
        HighlightMode::NoColor => Seq::<char>::empty(),
    }
}

pub fn green(mode: &HighlightMode) -> (r: String)
    ensures
        r@ == green_seq(*mode),
{
    match mode {
        HighlightMode::Color16 => String::from_str("\x1b[42m"),
        HighlightMode::Color256 => String::from_str("\x1b[48;5;64m"),
        HighlightMode::TrueColor => String::from_str("\x1b[48;2;40;80;24m"),
        HighlightMode::NoColor => String::new(),
    }
}

/// The escape sequence that `red` emits under each mode.
pub open spec fn red_seq(mode: HighlightMode) -> Seq<char> {
    match mode {
        HighlightMode::Color16 => "\x1b[41m"@,
        HighlightMode::Color256 => "\x1b[48;5;90m"@,
        HighlightMode::TrueColor => "\x1b[48;2;60;20;20m"@,
        HighlightMode::NoColor => Seq::<char>::empty(),
    }
}

pub fn red(mode: &HighlightMode) -> (r: String)
    ensures
        r@ == red_seq(*mode),
{
    match mode {
        HighlightMode::Color16 => String::from_str("\x1b[41m"),
        HighlightMode::Color256 => String::from_str("\x1b[48;5;90m"),
        HighlightMode::TrueColor => String::from_str("\x1b[48;2;60;20;20m"),
        HighlightMode::NoColor => String::new(),
    }
}

} // verus!

use bfconstructor::highlight::{bgcolors, colorize_plain, colors, paren_color, reset, HighlightMode};

#[test]
fn from_str_recognizes_mode_names() {
    assert_eq!(HighlightMode::from_str("false"), HighlightMode::NoColor);
    assert_eq!(HighlightMode::from_str("16"), HighlightMode::Color16);
    assert_eq!(HighlightMode::from_str("256"), HighlightMode::Color256);
    assert_eq!(HighlightMode::from_str("true"), HighlightMode::TrueColor);
    assert_eq!(HighlightMode::from_str("anything"), HighlightMode::NoColor);
}

#[test]
fn reset_is_empty_without_color() {
    assert_eq!(reset(&HighlightMode::NoColor), "");
    assert_eq!(reset(&HighlightMode::Color16), "\x1b[0m");
    assert_eq!(reset(&HighlightMode::TrueColor), "\x1b[0m");
}

#[test]
fn foreground_colors_emit_escapes() {
    assert_eq!(colors::pink(&HighlightMode::Color16), "\x1b[35m");
    assert_eq!(colors::pink(&HighlightMode::Color256), "\x1b[38;5;207m");
    assert_eq!(colors::pink(&HighlightMode::TrueColor), "\x1b[38;2;250;105;200m");
    assert_eq!(colors::pink(&HighlightMode::NoColor), "");
    assert_eq!(colors::blue(&HighlightMode::Color16), "\x1b[34m");
    assert_eq!(colors::white(&HighlightMode::Color256), "\x1b[38;5;15m");
    assert_eq!(colors::green(&HighlightMode::TrueColor), "\x1b[38;2;100;230;60m");
    assert_eq!(colors::red(&HighlightMode::Color16), "\x1b[31m");
    assert_eq!(colors::yellow(&HighlightMode::Color256), "\x1b[38;5;11m");
    assert_eq!(colors::orange(&HighlightMode::TrueColor), "\x1b[38;2;255;165;0m");
    assert_eq!(colors::lightblue(&HighlightMode::Color16), "\x1b[94m");
}

#[test]
fn background_colors_emit_escapes() {
    assert_eq!(bgcolors::pink(&HighlightMode::Color16), "\x1b[45m");
    assert_eq!(bgcolors::blue(&HighlightMode::TrueColor), "\x1b[48;2;20;30;60m");
    assert_eq!(bgcolors::white(&HighlightMode::Color256), "\x1b[48;5;237m");
    assert_eq!(bgcolors::yellow(&HighlightMode::Color16), "\x1b[43m");
    assert_eq!(bgcolors::orange(&HighlightMode::Color256), "\x1b[48;5;95m");
    assert_eq!(bgcolors::lightblue(&HighlightMode::TrueColor), "\x1b[48;2;20;40;120m");
    assert_eq!(bgcolors::green(&HighlightMode::Color16), "\x1b[42m");
    assert_eq!(bgcolors::red(&HighlightMode::Color256), "\x1b[48;5;90m");
    assert_eq!(bgcolors::red(&HighlightMode::NoColor), "");
}

#[test]
fn paren_color_cycles_through_palettes() {
    assert_eq!(paren_color(0, &HighlightMode::Color16), "\x1b[91m");
    assert_eq!(paren_color(6, &HighlightMode::Color16), "\x1b[91m");
    assert_eq!(paren_color(7, &HighlightMode::Color256), "\x1b[38;5;202m");
    assert_eq!(paren_color(5, &HighlightMode::TrueColor), "\x1b[38;2;164;219;211m");
    assert_eq!(paren_color(3, &HighlightMode::NoColor), "");
}

#[test]
fn colorize_plain_wraps_text() {
    assert_eq!(
        colorize_plain("hi", "red", &HighlightMode::TrueColor),
        "\x1b[38;2;250;80;50mhi\x1b[0m"
    );
    assert_eq!(colorize_plain("hi", "red", &HighlightMode::NoColor), "hi");
    assert_eq!(colorize_plain("hi", "unknown", &HighlightMode::Color16), "hi\x1b[0m");
}

use claude_status::render::{rgb_to_256, ColorLevel, ColorSpec, Renderer};

fn renderer(level: ColorLevel) -> Renderer {
    Renderer { color_level: level }
}

#[test]
fn hex_color_round_trips_to_truecolor_escape() {
    let spec = Renderer::parse_color("#1a2b3c");
    assert!(matches!(spec, ColorSpec::Rgb(26, 43, 60)));
    assert_eq!(renderer(ColorLevel::TrueColor).fg(&spec), "\x1b[38;2;26;43;60m");
    assert_eq!(renderer(ColorLevel::TrueColor).bg(&spec), "\x1b[48;2;26;43;60m");
}

#[test]
fn no_color_emits_nothing() {
    let r = renderer(ColorLevel::NoColor);
    for name in ["red", "#1a2b3c", "200", "nonsense", "brightCyan"] {
        let spec = Renderer::parse_color(name);
        assert_eq!(r.fg(&spec).len(), 0);
        assert_eq!(r.bg(&spec).len(), 0);
    }
    assert_eq!(r.bold().len(), 0);
    assert_eq!(r.reset().len(), 0);
    assert_eq!(r.osc8_link("https://x.y", "text"), "text");
}

#[test]
fn parse_color_names_and_fallbacks() {
    assert!(matches!(Renderer::parse_color("red"), ColorSpec::Named(ref n) if n == "red"));
    assert!(matches!(Renderer::parse_color("bright_red"), ColorSpec::Named(ref n) if n == "brightRed"));
    assert!(matches!(Renderer::parse_color("brightRed"), ColorSpec::Named(ref n) if n == "brightRed"));
    assert!(matches!(Renderer::parse_color("purple"), ColorSpec::Named(ref n) if n == "white"));
    assert!(matches!(Renderer::parse_color("42"), ColorSpec::Ansi256(42)));
    assert!(matches!(Renderer::parse_color("+7"), ColorSpec::Ansi256(7)));
    assert!(matches!(Renderer::parse_color("256"), ColorSpec::Named(ref n) if n == "white"));
    assert!(matches!(Renderer::parse_color("#FFffFF"), ColorSpec::Rgb(255, 255, 255)));
    assert!(matches!(Renderer::parse_color("#zz0000"), ColorSpec::Named(ref n) if n == "white"));
    assert!(matches!(Renderer::parse_color("#zzzzzz"), ColorSpec::Named(ref n) if n == "white"));
    assert!(matches!(Renderer::parse_color("#+f0000"), ColorSpec::Named(ref n) if n == "white"));
    assert!(matches!(Renderer::parse_color("#12345"), ColorSpec::Named(ref n) if n == "white"));
}

#[test]
fn named_colors_at_each_level() {
    let red = Renderer::parse_color("red");
    assert_eq!(renderer(ColorLevel::Basic16).fg(&red), "\x1b[31m");
    assert_eq!(renderer(ColorLevel::Basic16).bg(&red), "\x1b[41m");
    assert_eq!(renderer(ColorLevel::Color256).fg(&red), "\x1b[31m");
    assert_eq!(renderer(ColorLevel::TrueColor).fg(&red), "\x1b[31m");
    let bb = Renderer::parse_color("brightBlack");
    assert_eq!(renderer(ColorLevel::Basic16).fg(&bb), "\x1b[90m");
    assert_eq!(renderer(ColorLevel::Basic16).bg(&bb), "\x1b[100m");
}

#[test]
fn basic16_collapses_palette_and_rgb_to_defaults() {
    let r = renderer(ColorLevel::Basic16);
    assert_eq!(r.fg(&ColorSpec::Rgb(1, 2, 3)), "\x1b[37m");
    assert_eq!(r.bg(&ColorSpec::Ansi256(200)), "\x1b[40m");
}

#[test]
fn color256_quantizes_rgb() {
    let r = renderer(ColorLevel::Color256);
    assert_eq!(r.fg(&ColorSpec::Rgb(255, 0, 0)), "\x1b[38;5;196m");
    assert_eq!(r.bg(&ColorSpec::Ansi256(7)), "\x1b[48;5;7m");
    assert_eq!(r.fg(&ColorSpec::Rgb(128, 128, 128)), "\x1b[38;5;243m");
    assert_eq!(rgb_to_256(0, 0, 0), 16);
    assert_eq!(rgb_to_256(255, 255, 255), 231);
    assert_eq!(rgb_to_256(0, 255, 0), 46);
    assert_eq!(rgb_to_256(100, 150, 200), 67);
}

#[test]
fn bold_reset_and_link_with_color() {
    let r = renderer(ColorLevel::Basic16);
    assert_eq!(r.bold(), "\x1b[1m");
    assert_eq!(r.reset(), "\x1b[0m");
    assert_eq!(r.osc8_link("https://a.b", "t"), "\x1b]8;;https://a.b\x07t\x1b]8;;\x07");
}

#[test]
fn detect_prefers_override_then_environment() {
    let d = |o: &str, nc: bool, ct: Option<&str>, t: Option<&str>| Renderer::detect(o, nc, ct, t).color_level;
    assert_eq!(d("256", true, None, None), ColorLevel::Color256);
    assert_eq!(d("none", false, Some("truecolor"), None), ColorLevel::NoColor);
    assert_eq!(d("16", false, None, None), ColorLevel::Basic16);
    assert_eq!(d("truecolor", false, None, None), ColorLevel::TrueColor);
    assert_eq!(d("", true, Some("truecolor"), None), ColorLevel::NoColor);
    assert_eq!(d("auto", false, Some("truecolor"), None), ColorLevel::TrueColor);
    assert_eq!(d("auto", false, Some("24bit"), Some("xterm-256color")), ColorLevel::TrueColor);
    assert_eq!(d("auto", false, Some("yes"), Some("xterm-256color")), ColorLevel::Color256);
    assert_eq!(d("auto", false, None, Some("xterm")), ColorLevel::Basic16);
}

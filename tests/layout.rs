use claude_status::layout::{Config, LayoutEngine, PowerlineConfig, WidgetConfig, WidgetOutput};
use claude_status::render::{ColorLevel, Renderer};
use claude_status::text::visible_width;
use claude_status::theme::Theme;

fn out(text: &str) -> WidgetOutput {
    WidgetOutput {
        text: text.to_string(),
        display_width: text.chars().count(),
        priority: 50,
        visible: true,
        color_hint: None,
    }
}

fn slot(widget_type: &str) -> WidgetConfig {
    WidgetConfig { widget_type: widget_type.to_string(), ..WidgetConfig::default() }
}

fn config(separator: &str, padding: &str) -> Config {
    Config {
        default_separator: separator.to_string(),
        default_padding: padding.to_string(),
        flex_mode: "full".to_string(),
        ..Config::default()
    }
}

const PLAIN: Renderer = Renderer { color_level: ColorLevel::NoColor };

#[test]
fn standard_assembly_drops_trailing_widgets() {
    let cfg = config(" | ", "");
    let engine = LayoutEngine::new(&cfg, &PLAIN);
    let outs = [out("aaaaa"), out("bbbbb"), out("ccccc")];
    let slots = [slot("a"), slot("b"), slot("c")];
    let items: Vec<_> = outs.iter().zip(slots.iter()).collect();
    assert_eq!(engine.assemble_line(&items, 14), "aaaaa | bbbbb");
    assert_eq!(engine.assemble_line(&items, 21), "aaaaa | bbbbb | ccccc");
    assert_eq!(engine.assemble_line(&items, 4), "");
    assert!(visible_width(&engine.assemble_line(&items, 20)) <= 20);
}

#[test]
fn standard_assembly_never_skips_to_a_later_widget() {
    let cfg = config(" ", "");
    let engine = LayoutEngine::new(&cfg, &PLAIN);
    let outs = [out("aaaa"), out("bbbbbbbbbb"), out("c")];
    let slots = [slot("a"), slot("b"), slot("c")];
    let items: Vec<_> = outs.iter().zip(slots.iter()).collect();
    // "c" would fit after "aaaa", but "bbbbbbbbbb" does not, so both are dropped.
    assert_eq!(engine.assemble_line(&items, 8), "aaaa");
}

#[test]
fn merge_next_suppresses_separator_and_padding_wraps() {
    let cfg = config("|", " ");
    let engine = LayoutEngine::new(&cfg, &PLAIN);
    let outs = [out("a"), out("b"), out("c")];
    let mut first = slot("a");
    first.merge_next = true;
    let slots = [first, slot("b"), slot("c")];
    let items: Vec<_> = outs.iter().zip(slots.iter()).collect();
    assert_eq!(engine.assemble_line(&items, 100), " a  b | c ");
}

#[test]
fn flex_fill_takes_remaining_columns() {
    let cfg = config(" | ", " ");
    let engine = LayoutEngine::new(&cfg, &PLAIN);
    let outs = [out("left"), out("-"), out("right"), out("x")];
    let mut merged = slot("c");
    merged.merge_next = true;
    let slots = [slot("a"), slot("flex-separator"), merged, slot("d")];
    let items: Vec<_> = outs.iter().zip(slots.iter()).collect();
    // " left " + fill + " right " + " x ": fixed width 6 + 7 + 3 = 16, no separator
    // next to the flex slot nor after the merged slot.
    let line = engine.assemble_line(&items, 20);
    assert_eq!(line, " left ---- right  x ");
    assert_eq!(visible_width(&line), 20);
}

#[test]
fn flex_fill_of_six_columns() {
    let cfg = config("|", "");
    let engine = LayoutEngine::new(&cfg, &PLAIN);
    let outs = [out("abcdefg"), out(" "), out("hijklmn")];
    let slots = [slot("a"), slot("flex-separator"), slot("b")];
    let items: Vec<_> = outs.iter().zip(slots.iter()).collect();
    // max_width = 20, fixed_width = 14 => 6 fill columns
    assert_eq!(engine.assemble_line(&items, 20), "abcdefg      hijklmn");
    // no room left: the fill is empty
    assert_eq!(engine.assemble_line(&items, 10), "abcdefghijklmn");
}

#[test]
fn color_priority_chain() {
    let cfg = config(" ", "");
    let theme = Theme { name: "t".to_string(), colors: vec![("model".to_string(), "blue".to_string())] };
    let engine = LayoutEngine { config: &cfg, renderer: &PLAIN, theme };
    let mut wc = slot("model");
    wc.color = Some("red".to_string());
    let mut o = out("m");
    o.color_hint = Some("green".to_string());
    assert_eq!(engine.resolve_fg_color(&wc, &o), Some("red".to_string()));
    wc.color = None;
    assert_eq!(engine.resolve_fg_color(&wc, &o), Some("green".to_string()));
    o.color_hint = None;
    assert_eq!(engine.resolve_fg_color(&wc, &o), Some("blue".to_string()));
    let other = slot("vim-mode");
    assert_eq!(engine.resolve_fg_color(&other, &o), None);
}

#[test]
fn apply_style_orders_codes_and_resets() {
    let cfg = Config { global_bold: true, ..config(" ", "") };
    let r = Renderer { color_level: ColorLevel::Basic16 };
    let engine = LayoutEngine::new(&cfg, &r);
    let mut wc = slot("custom");
    wc.color = Some("red".to_string());
    wc.background_color = Some("blue".to_string());
    assert_eq!(engine.apply_style("hi", &wc, &out("hi")), "\x1b[44m\x1b[31m\x1b[1mhi\x1b[0m");
    wc.bold = Some(false);
    wc.background_color = None;
    assert_eq!(engine.apply_style("hi", &wc, &out("hi")), "\x1b[31mhi\x1b[0m");
}

fn powerline(start: Option<&str>, end: Option<&str>, auto_align: bool) -> Config {
    Config {
        powerline: PowerlineConfig {
            enabled: true,
            separator: ">".to_string(),
            start_cap: start.map(|s| s.to_string()),
            end_cap: end.map(|s| s.to_string()),
            auto_align,
        },
        ..config("|", " ")
    }
}

#[test]
fn powerline_chain_with_caps() {
    let cfg = powerline(Some("["), Some("]"), false);
    let engine = LayoutEngine::new(&cfg, &PLAIN);
    let outs = [out("a"), out("b")];
    let slots = [slot("x"), slot("y")];
    let items: Vec<_> = outs.iter().zip(slots.iter()).collect();
    assert_eq!(engine.assemble_powerline_line(&items, 100), "[ a > b ]");
    // too narrow for the second chip: it and its transition are dropped, caps stay
    assert_eq!(engine.assemble_powerline_line(&items, 5), "[ a ]");
}

#[test]
fn powerline_transition_colors() {
    let cfg = powerline(None, None, false);
    let r = Renderer { color_level: ColorLevel::Basic16 };
    let engine = LayoutEngine::new(&cfg, &r);
    let outs = [out("a"), out("b")];
    let mut first = slot("x");
    first.background_color = Some("red".to_string());
    let slots = [first, slot("y")];
    let items: Vec<_> = outs.iter().zip(slots.iter()).collect();
    assert_eq!(
        engine.assemble_powerline_line(&items, 100),
        "\x1b[41m a \x1b[0m\x1b[31m\x1b[40m>\x1b[0m\x1b[40m b \x1b[0m\x1b[0m"
    );
}

#[test]
fn powerline_flex_fills_gap_with_spaces() {
    let cfg = powerline(None, None, false);
    let engine = LayoutEngine::new(&cfg, &PLAIN);
    let outs = [out("a"), out(" "), out("b")];
    let slots = [slot("x"), slot("flex-separator"), slot("y")];
    let items: Vec<_> = outs.iter().zip(slots.iter()).collect();
    let line = engine.assemble_powerline_line(&items, 20);
    assert_eq!(line, format!(" a >{}\u{E0B2} b ", " ".repeat(12)));
}

#[test]
fn auto_align_pads_shorter_line() {
    let long = "x".repeat(42);
    let short = format!("\x1b[31m{}\x1b[0m", "y".repeat(30));
    let aligned = LayoutEngine::align_lines(&vec![long.clone(), short.clone()]);
    assert_eq!(aligned[0], long);
    assert_eq!(aligned[1], format!("{short}{}", " ".repeat(12)));
}

#[test]
fn render_filters_invisible_and_aligns_powerline() {
    let mut cfg = powerline(None, None, true);
    cfg.lines = vec![vec![slot("a"), slot("b")], vec![slot("c")], vec![slot("d")]];
    let engine = LayoutEngine::new(&cfg, &PLAIN);
    let mut hidden = out("zzz");
    hidden.visible = false;
    let outputs = vec![vec![out("aa"), hidden], vec![out("c")]];
    let lines = engine.render(&outputs, Some(100));
    assert_eq!(lines, vec![" aa ".to_string(), " c  ".to_string()]);
}

#[test]
fn render_standard_mode_without_align() {
    let mut cfg = config("|", "");
    cfg.lines = vec![vec![slot("a"), slot("b")], vec![]];
    let engine = LayoutEngine::new(&cfg, &PLAIN);
    let outputs = vec![vec![out("aa"), out("b")], vec![]];
    assert_eq!(engine.render(&outputs, Some(100)), vec!["aa|b".to_string()]);
}

#[test]
fn terminal_width_modes() {
    let mut cfg = config(" ", "");
    cfg.flex_mode = "full".to_string();
    assert_eq!(LayoutEngine::terminal_width(&cfg, Some(100)), 100);
    cfg.flex_mode = "full-minus-40".to_string();
    assert_eq!(LayoutEngine::terminal_width(&cfg, Some(100)), 60);
    assert_eq!(LayoutEngine::terminal_width(&cfg, None), 80);
    assert_eq!(LayoutEngine::terminal_width(&cfg, Some(30)), 0);
    cfg.flex_mode = "compact".to_string();
    assert_eq!(LayoutEngine::terminal_width(&cfg, Some(200)), 60);
    cfg.flex_mode = "whatever".to_string();
    assert_eq!(LayoutEngine::terminal_width(&cfg, Some(200)), 160);
}

#[test]
fn engine_takes_theme_from_config() {
    let mut cfg = config(" ", "");
    cfg.theme = "dracula".to_string();
    let engine = LayoutEngine::new(&cfg, &PLAIN);
    assert_eq!(engine.theme.name, "dracula");
}

#[test]
fn empty_configuration_renders_nothing() {
    let cfg = config(" ", " ");
    let engine = LayoutEngine::new(&cfg, &PLAIN);
    assert!(engine.render(&vec![], Some(80)).is_empty());
    let items: Vec<(&WidgetOutput, &WidgetConfig)> = Vec::new();
    assert_eq!(engine.assemble_line(&items, 0), "");
    assert_eq!(engine.assemble_powerline_line(&items, 0), "");
}

#[test]
fn zero_width_budget_drops_everything_but_caps() {
    let cfg = powerline(Some("<"), Some(">"), false);
    let engine = LayoutEngine::new(&cfg, &PLAIN);
    let outs = [out("a")];
    let slots = [slot("x")];
    let items: Vec<_> = outs.iter().zip(slots.iter()).collect();
    assert_eq!(engine.assemble_powerline_line(&items, 0), "<>");
    let plain_cfg = config(" ", " ");
    let plain = LayoutEngine::new(&plain_cfg, &PLAIN);
    assert_eq!(plain.assemble_line(&items, 0), "");
}

#[test]
fn padding_is_not_part_of_the_fit_check() {
    // The fit check compares the widget's own width with the budget and adds
    // the padding afterwards, so a padded widget may exceed the budget.
    let cfg = config(" ", " ");
    let engine = LayoutEngine::new(&cfg, &PLAIN);
    let outs = [out("abcd")];
    let slots = [slot("x")];
    let items: Vec<_> = outs.iter().zip(slots.iter()).collect();
    assert_eq!(engine.assemble_line(&items, 4), " abcd ");
}

#[test]
fn caps_take_the_color_of_emitted_chips() {
    let cfg = powerline(None, Some("E"), false);
    let r = Renderer { color_level: ColorLevel::Basic16 };
    let engine = LayoutEngine::new(&cfg, &r);
    let outs = [out("r"), out(&"b".repeat(100))];
    let mut red = slot("x");
    red.background_color = Some("red".to_string());
    let mut blue = slot("y");
    blue.background_color = Some("blue".to_string());
    let slots = [red, blue];
    let items: Vec<_> = outs.iter().zip(slots.iter()).collect();
    assert_eq!(
        engine.assemble_powerline_line(&items, 10),
        "\x1b[41m r \x1b[0m\x1b[31mE\x1b[0m\x1b[0m"
    );
}

#[test]
fn caps_are_black_when_no_chip_fits() {
    let cfg = powerline(Some("S"), Some("E"), false);
    let r = Renderer { color_level: ColorLevel::Basic16 };
    let engine = LayoutEngine::new(&cfg, &r);
    let outs = [out(&"b".repeat(100))];
    let mut blue = slot("y");
    blue.background_color = Some("blue".to_string());
    let slots = [blue];
    let items: Vec<_> = outs.iter().zip(slots.iter()).collect();
    assert_eq!(
        engine.assemble_powerline_line(&items, 10),
        "\x1b[30mS\x1b[0m\x1b[30mE\x1b[0m\x1b[0m"
    );
}

#[test]
fn flex_assembly_by_name() {
    let cfg = config("|", "");
    let engine = LayoutEngine::new(&cfg, &PLAIN);
    let outs = [out("abcdefg"), out("-"), out("hijklmn")];
    let slots = [slot("a"), slot("flex-separator"), slot("b")];
    let items: Vec<_> = outs.iter().zip(slots.iter()).collect();
    assert_eq!(engine.assemble_line_with_flex(&items, 20), "abcdefg------hijklmn");
}

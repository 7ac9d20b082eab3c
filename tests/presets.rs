use claude_status::presets::{base_config, preset, widget, widget_colored, widget_raw};

fn types(line: &[claude_status::layout::WidgetConfig]) -> Vec<&str> {
    line.iter().map(|w| w.widget_type.as_str()).collect()
}

#[test]
fn base_config_settings() {
    let c = base_config();
    assert_eq!(c.theme, "default");
    assert_eq!(c.default_separator, " | ");
    assert_eq!(c.default_padding, " ");
    assert_eq!(c.flex_mode, "full-minus-40");
    assert!(!c.powerline.enabled);
    assert_eq!(c.lines.len(), 1);
    assert_eq!(types(&c.lines[0]), vec!["model", "context-percentage"]);
}

#[test]
fn presets_by_name() {
    let full = preset("full").unwrap();
    assert_eq!(full.lines.len(), 2);
    assert_eq!(types(&full.lines[1]), vec!["cwd", "git-branch", "git-status", "lines-changed", "version"]);
    let compact = preset("compact").unwrap();
    assert!(compact.lines[0].iter().all(|w| w.raw_value));
    assert_eq!(compact.lines[0].len(), 4);
    let pl = preset("powerline").unwrap();
    assert!(pl.powerline.enabled && pl.powerline.auto_align);
    assert_eq!(pl.powerline.end_cap.as_deref(), Some("\u{E0B0}"));
    assert_eq!(pl.lines[1][4].background_color.as_deref(), Some("brightBlack"));
    assert_eq!(pl.lines[0][0].color.as_deref(), Some("white"));
    assert_eq!(preset("minimal").unwrap().lines[0].len(), 2);
    assert!(preset("fancy").is_none());
}

#[test]
fn slot_builders() {
    let w = widget("cwd");
    assert_eq!(w.widget_type, "cwd");
    assert!(w.color.is_none() && !w.raw_value && !w.merge_next && w.metadata.is_empty());
    assert!(widget_raw("cwd").raw_value);
    let c = widget_colored("cwd", Some("red"), None);
    assert_eq!(c.color.as_deref(), Some("red"));
    assert!(c.background_color.is_none());
}

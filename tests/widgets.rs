use claude_status::layout::{Config, LayoutEngine, WidgetConfig};
use claude_status::render::{ColorLevel, Renderer};
use claude_status::widgets::{
    render_widget, ApiDurationWidget, BurnStatus, Cost, ExceedsTokensWidget, FlexSeparatorWidget,
    GitBranchWidget, ModelSuggestWidget, OutputStyle, OutputStyleWidget, SessionData, Vim,
    VimModeWidget,
};

fn cfg() -> WidgetConfig {
    WidgetConfig::default()
}

#[test]
fn vim_mode_widget() {
    let mut data = SessionData::default();
    let hidden = VimModeWidget.render(&data, &cfg());
    assert!(!hidden.visible);
    assert_eq!(hidden.priority, 95);
    data.vim = Some(Vim { mode: None });
    let o = VimModeWidget.render(&data, &cfg());
    assert!(o.visible);
    assert_eq!(o.text, "NORMAL");
    assert_eq!(o.display_width, 6);
    data.vim = Some(Vim { mode: Some("INSERT".to_string()) });
    assert_eq!(VimModeWidget.render(&data, &cfg()).text, "INSERT");
    assert_eq!(VimModeWidget.name(), "vim-mode");
}

#[test]
fn flex_separator_widget_uses_char_parameter() {
    let data = SessionData::default();
    let mut c = cfg();
    let o = FlexSeparatorWidget.render(&data, &c);
    assert!(o.visible);
    assert_eq!(o.text, " ");
    assert_eq!(o.display_width, 0);
    assert_eq!(o.priority, 100);
    c.metadata = vec![("char".to_string(), "─".to_string())];
    assert_eq!(FlexSeparatorWidget.render(&data, &c).text, "─");
    c.metadata = vec![("char".to_string(), String::new())];
    assert_eq!(FlexSeparatorWidget.render(&data, &c).text, " ");
}

#[test]
fn output_style_widget_hides_default() {
    let mut data = SessionData::default();
    assert!(!OutputStyleWidget.render(&data, &cfg()).visible);
    data.output_style = Some(OutputStyle { name: Some("default".to_string()) });
    assert!(!OutputStyleWidget.render(&data, &cfg()).visible);
    data.output_style = Some(OutputStyle { name: Some("Explanatory".to_string()) });
    let o = OutputStyleWidget.render(&data, &cfg());
    assert!(o.visible);
    assert_eq!(o.text, "Explanatory");
    assert_eq!(o.display_width, 11);
    assert_eq!(o.priority, 30);
}

#[test]
fn exceeds_tokens_widget() {
    let mut data = SessionData::default();
    assert!(!ExceedsTokensWidget.render(&data, &cfg()).visible);
    data.exceeds_200k_tokens = Some(false);
    assert!(!ExceedsTokensWidget.render(&data, &cfg()).visible);
    data.exceeds_200k_tokens = Some(true);
    let o = ExceedsTokensWidget.render(&data, &cfg());
    assert_eq!(o.text, "!200K");
    assert_eq!(o.display_width, 5);
}

#[test]
fn api_duration_widget_percent() {
    let mut data = SessionData::default();
    assert!(!ApiDurationWidget.render(&data, &cfg()).visible);
    data.cost = Some(Cost {
        total_duration_ms: Some(0),
        total_api_duration_ms: Some(10),
        ..Cost::default()
    });
    assert!(!ApiDurationWidget.render(&data, &cfg()).visible);
    data.cost = Some(Cost {
        total_duration_ms: Some(3000),
        total_api_duration_ms: Some(1000),
        ..Cost::default()
    });
    let o = ApiDurationWidget.render(&data, &cfg());
    assert_eq!(o.text, "API: 33%");
    assert_eq!(o.display_width, 8);
    let mut raw = cfg();
    raw.raw_value = true;
    assert_eq!(ApiDurationWidget.render(&data, &raw).text, "33%");
}

#[test]
fn stub_widgets_report_nothing() {
    let data = SessionData::default();
    let o = GitBranchWidget.render(&data, &cfg());
    assert!(!o.visible);
    assert_eq!(o.priority, 50);
    assert_eq!(GitBranchWidget.name(), "git-branch");
}

#[test]
fn dispatch_by_widget_name() {
    let mut data = SessionData::default();
    data.exceeds_200k_tokens = Some(true);
    assert_eq!(render_widget("exceeds-tokens", &data, &cfg()).unwrap().text, "!200K");
    assert!(!render_widget("tokens-total", &data, &cfg()).unwrap().visible);
    assert!(render_widget("no-such-widget", &data, &cfg()).is_none());
}

#[test]
fn burn_status_colors() {
    assert_eq!(BurnStatus::VeryLow.color_hint(), Some("green".to_string()));
    assert_eq!(BurnStatus::Safe.color_hint(), Some("green".to_string()));
    assert_eq!(BurnStatus::Moderate.color_hint(), Some("yellow".to_string()));
    assert_eq!(BurnStatus::High.color_hint(), Some("red".to_string()));
    assert_eq!(BurnStatus::Critical.color_hint(), Some("red".to_string()));
}

#[test]
fn model_tier_ignores_case() {
    assert_eq!(ModelSuggestWidget::model_tier("model-OPUS-4-6"), Some("opus"));
    assert_eq!(ModelSuggestWidget::model_tier("Family Sonnet 4.5"), Some("sonnet"));
    assert_eq!(ModelSuggestWidget::model_tier("model-3-5-haiku"), Some("haiku"));
    assert_eq!(ModelSuggestWidget::model_tier("gpt"), None);
    assert_eq!(ModelSuggestWidget::tier_of_lowercase("OPUS"), None);
    assert_eq!(ModelSuggestWidget::tier_of_lowercase("opus"), Some("opus"));
}

#[test]
fn render_session_asks_each_widget() {
    let slot = |t: &str| WidgetConfig { widget_type: t.to_string(), ..WidgetConfig::default() };
    let cfg = Config {
        lines: vec![
            vec![slot("vim-mode"), slot("exceeds-tokens"), slot("unknown"), slot("git-branch")],
            vec![slot("model")],
        ],
        default_separator: " | ".to_string(),
        flex_mode: "full".to_string(),
        ..Config::default()
    };
    let r = Renderer { color_level: ColorLevel::NoColor };
    let engine = LayoutEngine::new(&cfg, &r);
    let mut data = SessionData::default();
    data.vim = Some(Vim { mode: Some("INSERT".to_string()) });
    data.exceeds_200k_tokens = Some(true);
    assert_eq!(engine.render_session(&data, Some(100)), vec!["INSERT | !200K".to_string()]);
}

//! The widget contract: session data in, one [`WidgetOutput`] out, and the
//! table that dispatches a widget type's name to its widget.
use vstd::prelude::*;

use crate::layout::{opt_seq, WidgetConfig, WidgetOutput};
use crate::text::{decimal, display_width, measured_width, push_decimal, str_contains, str_eq};
use crate::theme::{lookup, pairs_view};

verus! {

#[derive(Debug, Clone, Default)]
pub struct Model {
    pub id: Option<String>,
    pub display_name: Option<String>,
}

#[derive(Debug, Clone, Default)]
pub struct Workspace {
    pub current_dir: Option<String>,
    pub project_dir: Option<String>,
}

#[derive(Debug, Clone, Default)]
pub struct OutputStyle {
    pub name: Option<String>,
}

/// Session timings and line counts. The dollar cost stays with the caller:
/// no widget here reads it.
#[derive(Debug, Clone, Default)]
pub struct Cost {
    pub total_duration_ms: Option<u64>,
    pub total_api_duration_ms: Option<u64>,
    pub total_lines_added: Option<u64>,
    pub total_lines_removed: Option<u64>,
}

#[derive(Debug, Clone, Default)]
pub struct CurrentUsage {
    pub input_tokens: Option<u64>,
    pub output_tokens: Option<u64>,
    pub cache_creation_input_tokens: Option<u64>,
    pub cache_read_input_tokens: Option<u64>,
}

/// Token counts of the context window (its percentages stay with the caller).
#[derive(Debug, Clone, Default)]
pub struct ContextWindow {
    pub total_input_tokens: Option<u64>,
    pub total_output_tokens: Option<u64>,
    pub context_window_size: Option<u64>,
    pub current_usage: Option<CurrentUsage>,
}

#[derive(Debug, Clone, Default)]
pub struct Vim {
    pub mode: Option<String>,
}

#[derive(Debug, Clone, Default)]
pub struct Agent {
    pub name: Option<String>,
}

/// One snapshot of session telemetry.
#[derive(Debug, Clone, Default)]
pub struct SessionData {
    pub cwd: Option<String>,
    pub session_id: Option<String>,
    pub transcript_path: Option<String>,
    pub model: Option<Model>,
    pub workspace: Option<Workspace>,
    pub version: Option<String>,
    pub output_style: Option<OutputStyle>,
    pub cost: Option<Cost>,
    pub context_window: Option<ContextWindow>,
    pub exceeds_200k_tokens: Option<bool>,
    pub vim: Option<Vim>,
    pub agent: Option<Agent>,
}

/// An output that takes no part in a line.
pub open spec fn hidden(o: WidgetOutput, priority: u8) -> bool {
    !o.visible && o.text@.len() == 0 && o.display_width == 0 && o.priority == priority
        && o.color_hint is None
}

/// A visible output of `text`, measured.
pub open spec fn shown(o: WidgetOutput, text: Seq<char>, priority: u8) -> bool {
    o.visible && o.text@ == text && o.display_width == measured_width(text) && o.priority
        == priority && o.color_hint is None
}

fn hidden_output(priority: u8) -> (r: WidgetOutput)
    ensures
        hidden(r, priority),
{
    proof {
        reveal_strlit("");
    }
    WidgetOutput {
        text: String::new(),
        display_width: 0,
        priority,
        visible: false,
        color_hint: None,
    }
}

fn shown_output(text: String, priority: u8) -> (r: WidgetOutput)
    ensures
        shown(r, text@, priority),
{
    let display_width = display_width(text.as_str());
    WidgetOutput { text, display_width, priority, visible: true, color_hint: None }
}

/// The vim mode, `NORMAL` when the mode is not given; hidden without vim data.
pub open spec fn vim_mode_output(data: SessionData, o: WidgetOutput) -> bool {
    match data.vim {
        None => hidden(o, 95),
        Some(v) => shown(
            o,
            match v.mode {
                Some(m) => m@,
                None => "NORMAL"@,
            },
            95,
        ),
    }
}

/// The fill text of a flex slot: its `char` parameter when non-empty, else a space.
pub open spec fn fill_text(config: WidgetConfig) -> Seq<char> {
    match lookup(pairs_view(config.metadata@), "char"@) {
        Some(c) => if c.len() > 0 {
            c
        } else {
            " "@
        },
        None => " "@,
    }
}

/// The flex marker: visible, measuring nothing, carrying its fill text.
pub open spec fn flex_output(config: WidgetConfig, o: WidgetOutput) -> bool {
    o.visible && o.text@ == fill_text(config) && o.display_width == 0 && o.priority == 100
        && o.color_hint is None
}

/// The output style's name, hidden when absent or `default`.
pub open spec fn output_style_output(data: SessionData, o: WidgetOutput) -> bool {
    match data.output_style {
        Some(s) => match s.name {
            Some(n) => if n@ == "default"@ {
                hidden(o, 30)
            } else {
                shown(o, n@, 30)
            },
            None => hidden(o, 30),
        },
        None => hidden(o, 30),
    }
}

/// `!200K` when the session has gone over 200k tokens.
pub open spec fn exceeds_tokens_output(data: SessionData, o: WidgetOutput) -> bool {
    if data.exceeds_200k_tokens == Some(true) {
        shown(o, "!200K"@, 95)
    } else {
        hidden(o, 95)
    }
}

/// The share of the session's time spent in the API, in whole percent.
pub open spec fn api_percent(api_ms: u64, total_ms: u64) -> nat {
    let p = (api_ms as int) * 100 / (total_ms as int);
    if p <= u64::MAX {
        p as nat
    } else {
        u64::MAX as nat
    }
}

/// `API: N%` (just `N%` for a raw value); hidden without both durations or
/// with a zero total.
pub open spec fn api_duration_output(data: SessionData, config: WidgetConfig, o: WidgetOutput) -> bool {
    match data.cost {
        Some(c) => match (c.total_duration_ms, c.total_api_duration_ms) {
            (Some(total), Some(api)) => if total > 0 {
                shown(
                    o,
                    (if config.raw_value {
                        Seq::empty()
                    } else {
                        "API: "@
                    }) + decimal(api_percent(api, total)) + "%"@,
                    35,
                )
            } else {
                hidden(o, 35)
            },
            _ => hidden(o, 35),
        },
        None => hidden(o, 35),
    }
}

/// The `agent-name` widget; it reports nothing.
pub struct AgentNameWidget;

/// The `block-timer` widget; it reports nothing.
pub struct BlockTimerWidget;

/// The `context-percentage` widget; it reports nothing.
pub struct ContextPercentageWidget;

/// The `context-length` widget; it reports nothing.
pub struct ContextLengthWidget;

/// The `session-cost` widget; it reports nothing.
pub struct SessionCostWidget;

/// The `custom-command` widget; it reports nothing.
pub struct CustomCommandWidget;

/// The `custom-text` widget; it reports nothing.
pub struct CustomTextWidget;

/// The `cwd` widget; it reports nothing.
pub struct CwdWidget;

/// The `session-duration` widget; it reports nothing.
pub struct SessionDurationWidget;

/// The `git-branch` widget; it reports nothing.
pub struct GitBranchWidget;

/// The `git-status` widget; it reports nothing.
pub struct GitStatusWidget;

/// The `git-worktree` widget; it reports nothing.
pub struct GitWorktreeWidget;

/// The `lines-changed` widget; it reports nothing.
pub struct LinesChangedWidget;

/// The `model` widget; it reports nothing.
pub struct ModelWidget;

/// The `separator` widget; it reports nothing.
pub struct SeparatorWidget;

/// The `tokens-input` widget; it reports nothing.
pub struct TokenInputWidget;

/// The `tokens-output` widget; it reports nothing.
pub struct TokenOutputWidget;

/// The `tokens-cached` widget; it reports nothing.
pub struct TokenCachedWidget;

/// The `tokens-total` widget; it reports nothing.
pub struct TokenTotalWidget;

/// The `version` widget; it reports nothing.
pub struct VersionWidget;

/// The `vim-mode` widget.
pub struct VimModeWidget;

/// The `flex-separator` widget.
pub struct FlexSeparatorWidget;

/// The `output-style` widget.
pub struct OutputStyleWidget;

/// The `exceeds-tokens` widget.
pub struct ExceedsTokensWidget;

/// The `api-duration` widget.
pub struct ApiDurationWidget;

/// What the widget called `name` outputs, if there is one.
pub open spec fn widget_output(name: Seq<char>, data: SessionData, config: WidgetConfig, o: WidgetOutput) -> bool {
    if name == "agent-name"@ {
        hidden(o, 50)
    } else if name == "block-timer"@ {
        hidden(o, 50)
    } else if name == "context-percentage"@ {
        hidden(o, 50)
    } else if name == "context-length"@ {
        hidden(o, 50)
    } else if name == "session-cost"@ {
        hidden(o, 50)
    } else if name == "custom-command"@ {
        hidden(o, 50)
    } else if name == "custom-text"@ {
        hidden(o, 50)
    } else if name == "cwd"@ {
        hidden(o, 50)
    } else if name == "session-duration"@ {
        hidden(o, 50)
    } else if name == "git-branch"@ {
        hidden(o, 50)
    } else if name == "git-status"@ {
        hidden(o, 50)
    } else if name == "git-worktree"@ {
        hidden(o, 50)
    } else if name == "lines-changed"@ {
        hidden(o, 50)
    } else if name == "model"@ {
        hidden(o, 50)
    } else if name == "separator"@ {
        hidden(o, 50)
    } else if name == "tokens-input"@ {
        hidden(o, 50)
    } else if name == "tokens-output"@ {
        hidden(o, 50)
    } else if name == "tokens-cached"@ {
        hidden(o, 50)
    } else if name == "tokens-total"@ {
        hidden(o, 50)
    } else if name == "version"@ {
        hidden(o, 50)
    } else if name == "vim-mode"@ {
        vim_mode_output(data, o)
    } else if name == "flex-separator"@ {
        flex_output(config, o)
    } else if name == "output-style"@ {
        output_style_output(data, o)
    } else if name == "exceeds-tokens"@ {
        exceeds_tokens_output(data, o)
    } else if name == "api-duration"@ {
        api_duration_output(data, config, o)
    } else {
        false
    }
}

/// Whether a widget is called `name`.
pub open spec fn known_widget(name: Seq<char>) -> bool {
    name == "agent-name"@ || name == "block-timer"@ || name == "context-percentage"@ || name == "context-length"@ || name == "session-cost"@ || name == "custom-command"@ || name == "custom-text"@ || name == "cwd"@ || name == "session-duration"@ || name == "git-branch"@ || name == "git-status"@ || name == "git-worktree"@ || name == "lines-changed"@ || name == "model"@ || name == "separator"@ || name == "tokens-input"@ || name == "tokens-output"@ || name == "tokens-cached"@ || name == "tokens-total"@ || name == "version"@ || name == "vim-mode"@ || name == "flex-separator"@ || name == "output-style"@ || name == "exceeds-tokens"@ || name == "api-duration"@
}

impl AgentNameWidget {
    pub fn name(&self) -> (r: &'static str)
        ensures
            r@ == "agent-name"@,
    {
        "agent-name"
    }

    pub fn render(&self, _data: &SessionData, _config: &WidgetConfig) -> (r: WidgetOutput)
        ensures
            hidden(r, 50),
    {
        hidden_output(50)
    }
}

impl BlockTimerWidget {
    pub fn name(&self) -> (r: &'static str)
        ensures
            r@ == "block-timer"@,
    {
        "block-timer"
    }

    pub fn render(&self, _data: &SessionData, _config: &WidgetConfig) -> (r: WidgetOutput)
        ensures
            hidden(r, 50),
    {
        hidden_output(50)
    }
}

impl ContextPercentageWidget {
    pub fn name(&self) -> (r: &'static str)
        ensures
            r@ == "context-percentage"@,
    {
        "context-percentage"
    }

    pub fn render(&self, _data: &SessionData, _config: &WidgetConfig) -> (r: WidgetOutput)
        ensures
            hidden(r, 50),
    {
        hidden_output(50)
    }
}

impl ContextLengthWidget {
    pub fn name(&self) -> (r: &'static str)
        ensures
            r@ == "context-length"@,
    {
        "context-length"
    }

    pub fn render(&self, _data: &SessionData, _config: &WidgetConfig) -> (r: WidgetOutput)
        ensures
            hidden(r, 50),
    {
        hidden_output(50)
    }
}

impl SessionCostWidget {
    pub fn name(&self) -> (r: &'static str)
        ensures
            r@ == "session-cost"@,
    {
        "session-cost"
    }

    pub fn render(&self, _data: &SessionData, _config: &WidgetConfig) -> (r: WidgetOutput)
        ensures
            hidden(r, 50),
    {
        hidden_output(50)
    }
}

impl CustomCommandWidget {
    pub fn name(&self) -> (r: &'static str)
        ensures
            r@ == "custom-command"@,
    {
        "custom-command"
    }

    pub fn render(&self, _data: &SessionData, _config: &WidgetConfig) -> (r: WidgetOutput)
        ensures
            hidden(r, 50),
    {
        hidden_output(50)
    }
}

impl CustomTextWidget {
    pub fn name(&self) -> (r: &'static str)
        ensures
            r@ == "custom-text"@,
    {
        "custom-text"
    }

    pub fn render(&self, _data: &SessionData, _config: &WidgetConfig) -> (r: WidgetOutput)
        ensures
            hidden(r, 50),
    {
        hidden_output(50)
    }
}

impl CwdWidget {
    pub fn name(&self) -> (r: &'static str)
        ensures
            r@ == "cwd"@,
    {
        "cwd"
    }

    pub fn render(&self, _data: &SessionData, _config: &WidgetConfig) -> (r: WidgetOutput)
        ensures
            hidden(r, 50),
    {
        hidden_output(50)
    }
}

impl SessionDurationWidget {
    pub fn name(&self) -> (r: &'static str)
        ensures
            r@ == "session-duration"@,
    {
        "session-duration"
    }

    pub fn render(&self, _data: &SessionData, _config: &WidgetConfig) -> (r: WidgetOutput)
        ensures
            hidden(r, 50),
    {
        hidden_output(50)
    }
}

impl GitBranchWidget {
    pub fn name(&self) -> (r: &'static str)
        ensures
            r@ == "git-branch"@,
    {
        "git-branch"
    }

    pub fn render(&self, _data: &SessionData, _config: &WidgetConfig) -> (r: WidgetOutput)
        ensures
            hidden(r, 50),
    {
        hidden_output(50)
    }
}

impl GitStatusWidget {
    pub fn name(&self) -> (r: &'static str)
        ensures
            r@ == "git-status"@,
    {
        "git-status"
    }

    pub fn render(&self, _data: &SessionData, _config: &WidgetConfig) -> (r: WidgetOutput)
        ensures
            hidden(r, 50),
    {
        hidden_output(50)
    }
}

impl GitWorktreeWidget {
    pub fn name(&self) -> (r: &'static str)
        ensures
            r@ == "git-worktree"@,
    {
        "git-worktree"
    }

    pub fn render(&self, _data: &SessionData, _config: &WidgetConfig) -> (r: WidgetOutput)
        ensures
            hidden(r, 50),
    {
        hidden_output(50)
    }
}

impl LinesChangedWidget {
    pub fn name(&self) -> (r: &'static str)
        ensures
            r@ == "lines-changed"@,
    {
        "lines-changed"
    }

    pub fn render(&self, _data: &SessionData, _config: &WidgetConfig) -> (r: WidgetOutput)
        ensures
            hidden(r, 50),
    {
        hidden_output(50)
    }
}

impl ModelWidget {
    pub fn name(&self) -> (r: &'static str)
        ensures
            r@ == "model"@,
    {
        "model"
    }

    pub fn render(&self, _data: &SessionData, _config: &WidgetConfig) -> (r: WidgetOutput)
        ensures
            hidden(r, 50),
    {
        hidden_output(50)
    }
}

impl SeparatorWidget {
    pub fn name(&self) -> (r: &'static str)
        ensures
            r@ == "separator"@,
    {
        "separator"
    }

    pub fn render(&self, _data: &SessionData, _config: &WidgetConfig) -> (r: WidgetOutput)
        ensures
            hidden(r, 50),
    {
        hidden_output(50)
    }
}

impl TokenInputWidget {
    pub fn name(&self) -> (r: &'static str)
        ensures
            r@ == "tokens-input"@,
    {
        "tokens-input"
    }

    pub fn render(&self, _data: &SessionData, _config: &WidgetConfig) -> (r: WidgetOutput)
        ensures
            hidden(r, 50),
    {
        hidden_output(50)
    }
}

impl TokenOutputWidget {
    pub fn name(&self) -> (r: &'static str)
        ensures
            r@ == "tokens-output"@,
    {
        "tokens-output"
    }

    pub fn render(&self, _data: &SessionData, _config: &WidgetConfig) -> (r: WidgetOutput)
        ensures
            hidden(r, 50),
    {
        hidden_output(50)
    }
}

impl TokenCachedWidget {
    pub fn name(&self) -> (r: &'static str)
        ensures
            r@ == "tokens-cached"@,
    {
        "tokens-cached"
    }

    pub fn render(&self, _data: &SessionData, _config: &WidgetConfig) -> (r: WidgetOutput)
        ensures
            hidden(r, 50),
    {
        hidden_output(50)
    }
}

impl TokenTotalWidget {
    pub fn name(&self) -> (r: &'static str)
        ensures
            r@ == "tokens-total"@,
    {
        "tokens-total"
    }

    pub fn render(&self, _data: &SessionData, _config: &WidgetConfig) -> (r: WidgetOutput)
        ensures
            hidden(r, 50),
    {
        hidden_output(50)
    }
}

impl VersionWidget {
    pub fn name(&self) -> (r: &'static str)
        ensures
            r@ == "version"@,
    {
        "version"
    }

    pub fn render(&self, _data: &SessionData, _config: &WidgetConfig) -> (r: WidgetOutput)
        ensures
            hidden(r, 50),
    {
        hidden_output(50)
    }
}

impl VimModeWidget {
    pub fn name(&self) -> (r: &'static str)
        ensures
            r@ == "vim-mode"@,
    {
        "vim-mode"
    }

    pub fn render(&self, data: &SessionData, _config: &WidgetConfig) -> (r: WidgetOutput)
        ensures
            vim_mode_output(*data, r),
    {
        match &data.vim {
            None => hidden_output(95),
            Some(v) => {
                let text = match &v.mode {
                    Some(m) => m.clone(),
                    None => String::from_str("NORMAL"),
                };
                shown_output(text, 95)
            },
        }
    }
}

impl FlexSeparatorWidget {
    pub fn name(&self) -> (r: &'static str)
        ensures
            r@ == "flex-separator"@,
    {
        "flex-separator"
    }

    pub fn render(&self, _data: &SessionData, config: &WidgetConfig) -> (r: WidgetOutput)
        ensures
            flex_output(*config, r),
    {
        let fill = match metadata_value(&config.metadata, "char") {
            Some(c) => if c.unicode_len() > 0 {
                String::from_str(c)
            } else {
                String::from_str(" ")
            },
            None => String::from_str(" "),
        };
        WidgetOutput { text: fill, display_width: 0, priority: 100, visible: true, color_hint: None }
    }
}

impl OutputStyleWidget {
    pub fn name(&self) -> (r: &'static str)
        ensures
            r@ == "output-style"@,
    {
        "output-style"
    }

    pub fn render(&self, data: &SessionData, _config: &WidgetConfig) -> (r: WidgetOutput)
        ensures
            output_style_output(*data, r),
    {
        match &data.output_style {
            Some(s) => match &s.name {
                Some(n) => if str_eq(n.as_str(), "default") {
                    hidden_output(30)
                } else {
                    shown_output(n.clone(), 30)
                },
                None => hidden_output(30),
            },
            None => hidden_output(30),
        }
    }
}

impl ExceedsTokensWidget {
    pub fn name(&self) -> (r: &'static str)
        ensures
            r@ == "exceeds-tokens"@,
    {
        "exceeds-tokens"
    }

    pub fn render(&self, data: &SessionData, _config: &WidgetConfig) -> (r: WidgetOutput)
        ensures
            exceeds_tokens_output(*data, r),
    {
        match data.exceeds_200k_tokens {
            Some(true) => shown_output(String::from_str("!200K"), 95),
            _ => hidden_output(95),
        }
    }
}

impl ApiDurationWidget {
    pub fn name(&self) -> (r: &'static str)
        ensures
            r@ == "api-duration"@,
    {
        "api-duration"
    }

    pub fn render(&self, data: &SessionData, config: &WidgetConfig) -> (r: WidgetOutput)
        ensures
            api_duration_output(*data, *config, r),
    {
        let cost = match &data.cost {
            Some(c) => c,
            None => return hidden_output(35),
        };
        let total_ms = match cost.total_duration_ms {
            Some(d) => if d > 0 {
                d
            } else {
                return hidden_output(35);
            },
            None => return hidden_output(35),
        };
        let api_ms = match cost.total_api_duration_ms {
            Some(a) => a,
            None => return hidden_output(35),
        };
        let wide = api_ms as u128 * 100 / total_ms as u128;
        let pct: u64 = if wide <= u64::MAX as u128 {
            wide as u64
        } else {
            u64::MAX
        };
        let mut text = if config.raw_value {
            String::new()
        } else {
            String::from_str("API: ")
        };
        proof {
            reveal_strlit("");
        }
        push_decimal(&mut text, pct);
        text.append("%");
        shown_output(text, 35)
    }
}

/// The value of the first `key` entry of a widget's parameters.
pub fn metadata_value<'c>(metadata: &'c Vec<(String, String)>, key: &str) -> (r: Option<&'c str>)
    ensures
        match r {
            Some(v) => lookup(pairs_view(metadata@), key@) == Some(v@),
            None => lookup(pairs_view(metadata@), key@) is None,
        },
{
    let n = metadata.len();
    let ghost ps = pairs_view(metadata@);
    let mut i: usize = 0;
    assert(ps.subrange(0, n as int) == ps);
    while i < n
        invariant
            n == metadata@.len(),
            ps == pairs_view(metadata@),
            i <= n,
            lookup(ps, key@) == lookup(ps.subrange(i as int, n as int), key@),
        decreases n - i,
    {
        let ghost rest = ps.subrange(i as int, n as int);
        assert(rest.drop_first() == ps.subrange(i + 1, n as int));
        assert(rest[0] == (metadata@[i as int].0@, metadata@[i as int].1@));
        if str_eq(metadata[i].0.as_str(), key) {
            assert(rest[0].0 == key@);
            return Some(metadata[i].1.as_str());
        }
        i = i + 1;
    }
    None
}

/// Renders the widget called `widget_type`; `None` when no widget has that name.
pub fn render_widget(widget_type: &str, data: &SessionData, config: &WidgetConfig) -> (r: Option<WidgetOutput>)
    ensures
        r is Some <==> known_widget(widget_type@),
        r matches Some(o) ==> widget_output(widget_type@, *data, *config, o),
{
    if str_eq(widget_type, "agent-name") {
        Some(AgentNameWidget.render(data, config))
    } else if str_eq(widget_type, "block-timer") {
        Some(BlockTimerWidget.render(data, config))
    } else if str_eq(widget_type, "context-percentage") {
        Some(ContextPercentageWidget.render(data, config))
    } else if str_eq(widget_type, "context-length") {
        Some(ContextLengthWidget.render(data, config))
    } else if str_eq(widget_type, "session-cost") {
        Some(SessionCostWidget.render(data, config))
    } else if str_eq(widget_type, "custom-command") {
        Some(CustomCommandWidget.render(data, config))
    } else if str_eq(widget_type, "custom-text") {
        Some(CustomTextWidget.render(data, config))
    } else if str_eq(widget_type, "cwd") {
        Some(CwdWidget.render(data, config))
    } else if str_eq(widget_type, "session-duration") {
        Some(SessionDurationWidget.render(data, config))
    } else if str_eq(widget_type, "git-branch") {
        Some(GitBranchWidget.render(data, config))
    } else if str_eq(widget_type, "git-status") {
        Some(GitStatusWidget.render(data, config))
    } else if str_eq(widget_type, "git-worktree") {
        Some(GitWorktreeWidget.render(data, config))
    } else if str_eq(widget_type, "lines-changed") {
        Some(LinesChangedWidget.render(data, config))
    } else if str_eq(widget_type, "model") {
        Some(ModelWidget.render(data, config))
    } else if str_eq(widget_type, "separator") {
        Some(SeparatorWidget.render(data, config))
    } else if str_eq(widget_type, "tokens-input") {
        Some(TokenInputWidget.render(data, config))
    } else if str_eq(widget_type, "tokens-output") {
        Some(TokenOutputWidget.render(data, config))
    } else if str_eq(widget_type, "tokens-cached") {
        Some(TokenCachedWidget.render(data, config))
    } else if str_eq(widget_type, "tokens-total") {
        Some(TokenTotalWidget.render(data, config))
    } else if str_eq(widget_type, "version") {
        Some(VersionWidget.render(data, config))
    } else if str_eq(widget_type, "vim-mode") {
        Some(VimModeWidget.render(data, config))
    } else if str_eq(widget_type, "flex-separator") {
        Some(FlexSeparatorWidget.render(data, config))
    } else if str_eq(widget_type, "output-style") {
        Some(OutputStyleWidget.render(data, config))
    } else if str_eq(widget_type, "exceeds-tokens") {
        Some(ExceedsTokensWidget.render(data, config))
    } else if str_eq(widget_type, "api-duration") {
        Some(ApiDurationWidget.render(data, config))
    } else {
        None
    }
}

// ---------------------------------------------------------------------------
// Widgets whose rendering reads cost history and floating-point rates keep
// that rendering with the caller; their decisions on plain values are here.

/// How fast money is being spent, relative to a safe rate.
#[derive(Debug, Clone, Copy, PartialEq, Eq, Structural)]
pub enum BurnStatus {
    VeryLow,
    Safe,
    Moderate,
    High,
    Critical,
}

pub open spec fn burn_color(s: BurnStatus) -> Seq<char> {
    match s {
        BurnStatus::VeryLow | BurnStatus::Safe => "green"@,
        BurnStatus::Moderate => "yellow"@,
        BurnStatus::High | BurnStatus::Critical => "red"@,
    }
}

impl BurnStatus {
    /// The color a burn-rate widget asks for: green when safe, yellow when
    /// moderate, red when high.
    pub fn color_hint(&self) -> (r: Option<String>)
        ensures
            opt_seq(r) == Some(burn_color(*self)),
    {
        match self {
            BurnStatus::VeryLow | BurnStatus::Safe => Some(String::from_str("green")),
            BurnStatus::Moderate => Some(String::from_str("yellow")),
            BurnStatus::High | BurnStatus::Critical => Some(String::from_str("red")),
        }
    }
}

/// How demanding the current work looks.
#[derive(Debug, Clone, Copy, PartialEq, Eq, Structural)]
pub enum Complexity {
    Simple,
    Medium,
    High,
}

/// The `model-suggest` widget.
pub struct ModelSuggestWidget;

/// What std's `str::to_lowercase` makes of a string.
pub uninterp spec fn lowercase_of(s: Seq<char>) -> Seq<char>;

/// Relies on `str::to_lowercase`: the lowercase form of a string, which
/// depends on its characters alone.
#[verifier::external_body]
fn to_lowercase(s: &str) -> (r: String)
    ensures
        r@ == lowercase_of(s@),
{
    s.to_lowercase()
}

/// The model family named in a lowercase model id.
pub open spec fn tier_in(lower: Seq<char>) -> Option<Seq<char>> {
    if crate::text::contains_seq(lower, "opus"@) {
        Some("opus"@)
    } else if crate::text::contains_seq(lower, "sonnet"@) {
        Some("sonnet"@)
    } else if crate::text::contains_seq(lower, "haiku"@) {
        Some("haiku"@)
    } else {
        None
    }
}

pub open spec fn opt_str(o: Option<&str>) -> Option<Seq<char>> {
    match o {
        Some(s) => Some(s@),
        None => None,
    }
}

impl ModelSuggestWidget {
    pub fn name(&self) -> (r: &'static str)
        ensures
            r@ == "model-suggest"@,
    {
        "model-suggest"
    }

    /// The model family (`opus`, `sonnet`, `haiku`) that an already
    /// lowercase model id names.
    pub fn tier_of_lowercase(lower: &str) -> (r: Option<&'static str>)
        ensures
            opt_str(r) == tier_in(lower@),
    {
        if str_contains(lower, "opus") {
            Some("opus")
        } else if str_contains(lower, "sonnet") {
            Some("sonnet")
        } else if str_contains(lower, "haiku") {
            Some("haiku")
        } else {
            None
        }
    }

    /// The model family that a model id names, case aside.
    pub fn model_tier(model_id: &str) -> (r: Option<&'static str>)
        ensures
            opt_str(r) == tier_in(lowercase_of(model_id@)),
    {
        let lower = to_lowercase(model_id);
        Self::tier_of_lowercase(lower.as_str())
    }
}

} // verus!

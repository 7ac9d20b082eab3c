//! The built-in configurations: the base settings and the named presets.
use vstd::prelude::*;

use crate::layout::{Config, PowerlineConfig, WidgetConfig};
use crate::text::str_eq;

verus! {

/// A slot of widget type `t` with the given colors and raw flag, and
/// nothing else set.
pub open spec fn slot_is(
    w: WidgetConfig,
    t: Seq<char>,
    fg: Option<Seq<char>>,
    bg: Option<Seq<char>>,
    raw: bool,
) -> bool {
    &&& w.widget_type@ == t
    &&& w.id@.len() == 0
    &&& crate::layout::opt_seq(w.color) == fg
    &&& crate::layout::opt_seq(w.background_color) == bg
    &&& w.bold is None
    &&& w.raw_value == raw
    &&& w.padding is None
    &&& !w.merge_next
    &&& w.metadata@.len() == 0
}

/// A line of uncolored slots of the given types.
pub open spec fn plain_line(line: Seq<WidgetConfig>, types: Seq<Seq<char>>, raw: bool) -> bool {
    line.len() == types.len() && forall|i: int|
        0 <= i < line.len() ==> slot_is(#[trigger] line[i], types[i], None, None, raw)
}

/// A line of slots with white text on the given backgrounds.
pub open spec fn colored_line(line: Seq<WidgetConfig>, types: Seq<Seq<char>>, bgs: Seq<Seq<char>>) -> bool {
    line.len() == types.len() && line.len() == bgs.len() && forall|i: int|
        0 <= i < line.len() ==> slot_is(#[trigger] line[i], types[i], Some("white"@), Some(bgs[i]), false)
}

/// The base settings: default theme, ` | ` between widgets, one space of
/// padding, no bold, the `full-minus-40` width mode, powerline off.
pub open spec fn base_settings(c: Config) -> bool {
    &&& c.theme@ == "default"@
    &&& c.default_separator@ == " | "@
    &&& c.default_padding@ == " "@
    &&& !c.global_bold
    &&& c.flex_mode@ == "full-minus-40"@
    &&& !c.powerline.enabled
    &&& c.powerline.separator@ == "\u{E0B0}"@
    &&& c.powerline.start_cap is None
    &&& c.powerline.end_cap is None
    &&& !c.powerline.auto_align
}

pub open spec fn is_minimal(c: Config) -> bool {
    base_settings(c) && c.lines@.len() == 1 && plain_line(c.lines@[0]@, seq!["model"@, "context-percentage"@], false)
}

pub open spec fn is_full(c: Config) -> bool {
    base_settings(c) && c.lines@.len() == 2 && plain_line(c.lines@[0]@, seq!["model"@, "context-percentage"@, "tokens-input"@, "tokens-output"@, "session-cost"@, "session-duration"@], false)
        && plain_line(c.lines@[1]@, seq!["cwd"@, "git-branch"@, "git-status"@, "lines-changed"@, "version"@], false)
}

pub open spec fn is_compact(c: Config) -> bool {
    base_settings(c) && c.lines@.len() == 1 && plain_line(c.lines@[0]@, seq!["model"@, "context-percentage"@, "session-cost"@, "session-duration"@], true)
}

/// Two colored lines, powerline on with its arrow as separator and end cap,
/// auto-align on; the other settings are the base ones.
pub open spec fn is_powerline(c: Config) -> bool {
    &&& c.lines@.len() == 2
    &&& colored_line(c.lines@[0]@, seq!["model"@, "context-percentage"@, "tokens-input"@, "tokens-output"@, "session-cost"@, "session-duration"@], seq!["blue"@, "green"@, "cyan"@, "magenta"@, "yellow"@, "red"@])
    &&& colored_line(c.lines@[1]@, seq!["cwd"@, "git-branch"@, "git-status"@, "lines-changed"@, "version"@], seq!["blue"@, "magenta"@, "green"@, "cyan"@, "brightBlack"@])
    &&& c.theme@ == "default"@
    &&& c.default_separator@ == " | "@
    &&& c.default_padding@ == " "@
    &&& !c.global_bold
    &&& c.flex_mode@ == "full-minus-40"@
    &&& c.powerline.enabled
    &&& c.powerline.separator@ == "\u{E0B0}"@
    &&& c.powerline.start_cap is None
    &&& opt_string(c.powerline.end_cap) == Some("\u{E0B0}"@)
    &&& c.powerline.auto_align
}

pub open spec fn opt_string(o: Option<String>) -> Option<Seq<char>> {
    crate::layout::opt_seq(o)
}

/// A slot of type `widget_type` with nothing else set.
pub fn widget(widget_type: &str) -> (r: WidgetConfig)
    ensures
        slot_is(r, widget_type@, None, None, false),
{
    proof {
        reveal_strlit("");
    }
    WidgetConfig {
        widget_type: String::from_str(widget_type),
        id: String::new(),
        color: None,
        background_color: None,
        bold: None,
        raw_value: false,
        padding: None,
        merge_next: false,
        metadata: Vec::new(),
    }
}

/// A slot that shows its widget's raw value.
pub fn widget_raw(widget_type: &str) -> (r: WidgetConfig)
    ensures
        slot_is(r, widget_type@, None, None, true),
{
    let mut w = widget(widget_type);
    w.raw_value = true;
    w
}

pub open spec fn opt_str_view(o: Option<&str>) -> Option<Seq<char>> {
    match o {
        Some(s) => Some(s@),
        None => None,
    }
}

fn owned(o: Option<&str>) -> (r: Option<String>)
    ensures
        crate::layout::opt_seq(r) == opt_str_view(o),
{
    match o {
        Some(s) => Some(String::from_str(s)),
        None => None,
    }
}

/// A slot with explicit foreground and background colors.
pub fn widget_colored(widget_type: &str, fg: Option<&str>, bg: Option<&str>) -> (r: WidgetConfig)
    ensures
        slot_is(r, widget_type@, opt_str_view(fg), opt_str_view(bg), false),
{
    let mut w = widget(widget_type);
    w.color = owned(fg);
    w.background_color = owned(bg);
    w
}

/// The base configuration: one line with the model and the context usage.
pub fn base_config() -> (r: Config)
    ensures
        is_minimal(r),
{
    let line = vec![widget("model"), widget("context-percentage")];
    assert(plain_line(line@, seq!["model"@, "context-percentage"@], false));
    Config {
        lines: vec![line],
        theme: String::from_str("default"),
        default_separator: String::from_str(" | "),
        default_padding: String::from_str(" "),
        global_bold: false,
        flex_mode: String::from_str("full-minus-40"),
        powerline: PowerlineConfig {
            enabled: false,
            separator: String::from_str("\u{E0B0}"),
            start_cap: None,
            end_cap: None,
            auto_align: false,
        },
    }
}

pub fn preset_minimal() -> (r: Config)
    ensures
        is_minimal(r),
{
    base_config()
}

pub fn preset_full() -> (r: Config)
    ensures
        is_full(r),
{
    let first = vec![widget("model"), widget("context-percentage"), widget("tokens-input"), widget("tokens-output"), widget("session-cost"), widget("session-duration")];
    let second = vec![widget("cwd"), widget("git-branch"), widget("git-status"), widget("lines-changed"), widget("version")];
    assert(plain_line(first@, seq!["model"@, "context-percentage"@, "tokens-input"@, "tokens-output"@, "session-cost"@, "session-duration"@], false));
    assert(plain_line(second@, seq!["cwd"@, "git-branch"@, "git-status"@, "lines-changed"@, "version"@], false));
    let mut c = base_config();
    c.lines = vec![first, second];
    c
}

pub fn preset_compact() -> (r: Config)
    ensures
        is_compact(r),
{
    let line = vec![widget_raw("model"), widget_raw("context-percentage"), widget_raw("session-cost"), widget_raw("session-duration")];
    assert(plain_line(line@, seq!["model"@, "context-percentage"@, "session-cost"@, "session-duration"@], true));
    let mut c = base_config();
    c.lines = vec![line];
    c
}

pub fn preset_powerline() -> (r: Config)
    ensures
        is_powerline(r),
{
    let first = vec![widget_colored("model", Some("white"), Some("blue")), widget_colored("context-percentage", Some("white"), Some("green")), widget_colored("tokens-input", Some("white"), Some("cyan")), widget_colored("tokens-output", Some("white"), Some("magenta")), widget_colored("session-cost", Some("white"), Some("yellow")), widget_colored("session-duration", Some("white"), Some("red"))];
    let second = vec![widget_colored("cwd", Some("white"), Some("blue")), widget_colored("git-branch", Some("white"), Some("magenta")), widget_colored("git-status", Some("white"), Some("green")), widget_colored("lines-changed", Some("white"), Some("cyan")), widget_colored("version", Some("white"), Some("brightBlack"))];
    assert(colored_line(first@, seq!["model"@, "context-percentage"@, "tokens-input"@, "tokens-output"@, "session-cost"@, "session-duration"@], seq!["blue"@, "green"@, "cyan"@, "magenta"@, "yellow"@, "red"@]));
    assert(colored_line(second@, seq!["cwd"@, "git-branch"@, "git-status"@, "lines-changed"@, "version"@], seq!["blue"@, "magenta"@, "green"@, "cyan"@, "brightBlack"@]));
    let mut c = base_config();
    c.lines = vec![first, second];
    c.powerline = PowerlineConfig {
        enabled: true,
        separator: String::from_str("\u{E0B0}"),
        start_cap: None,
        end_cap: Some(String::from_str("\u{E0B0}")),
        auto_align: true,
    };
    c
}

/// The preset called `name` (`minimal`, `full`, `powerline`, `compact`).
pub fn preset(name: &str) -> (r: Option<Config>)
    ensures
        r is Some <==> (name@ == "minimal"@ || name@ == "full"@ || name@ == "powerline"@
            || name@ == "compact"@),
        name@ == "minimal"@ ==> (r matches Some(c) && is_minimal(c)),
        name@ == "full"@ ==> (r matches Some(c) && is_full(c)),
        name@ == "powerline"@ ==> (r matches Some(c) && is_powerline(c)),
        name@ == "compact"@ ==> (r matches Some(c) && is_compact(c)),
{
    proof {
        reveal_strlit("minimal");
        reveal_strlit("full");
        reveal_strlit("powerline");
        reveal_strlit("compact");
        assert("full"@.len() == 4 && "minimal"@.len() == 7 && "powerline"@.len() == 9);
        assert("compact"@.len() == 7 && "compact"@[0] != "minimal"@[0]);
        assert("full"@ != "minimal"@);
        assert("powerline"@ != "minimal"@ && "powerline"@ != "full"@);
        assert("compact"@ != "minimal"@ && "compact"@ != "full"@ && "compact"@ != "powerline"@);
    }
    if str_eq(name, "minimal") {
        Some(preset_minimal())
    } else if str_eq(name, "full") {
        Some(preset_full())
    } else if str_eq(name, "powerline") {
        Some(preset_powerline())
    } else if str_eq(name, "compact") {
        Some(preset_compact())
    } else {
        None
    }
}

} // verus!

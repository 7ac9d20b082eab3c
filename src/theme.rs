//! Color themes: a name and a mapping from semantic role to color string.
use vstd::prelude::*;

use crate::text::str_eq;

verus! {

/// A named mapping from semantic role (`cost`, `git_clean`, ...) to a color
/// string; a role missing from it has no color.
#[derive(Debug, Clone)]
pub struct Theme {
    pub name: String,
    pub colors: Vec<(String, String)>,
}

/// Role/color pairs as character sequences.
pub open spec fn pairs_view(v: Seq<(String, String)>) -> Seq<(Seq<char>, Seq<char>)> {
    v.map_values(|p: (String, String)| (p.0@, p.1@))
}

/// The color of the first pair whose role is `role`.
pub open spec fn lookup(ps: Seq<(Seq<char>, Seq<char>)>, role: Seq<char>) -> Option<Seq<char>>
    decreases ps.len(),
{
    if ps.len() == 0 {
        None
    } else if ps[0].0 == role {
        Some(ps[0].1)
    } else {
        lookup(ps.drop_first(), role)
    }
}

impl Theme {
    pub open spec fn pairs(&self) -> Seq<(Seq<char>, Seq<char>)> {
        pairs_view(self.colors@)
    }
}

/// The role whose color a widget type takes from the theme.
pub open spec fn widget_role(widget_type: Seq<char>) -> Option<Seq<char>> {
    if widget_type == "model"@ {
        Some("model"@)
    } else if widget_type == "context-percentage"@ || widget_type == "context-length"@ {
        Some("context_ok"@)
    } else if widget_type == "git-branch"@ {
        Some("git_branch"@)
    } else if widget_type == "git-status"@ {
        Some("git_clean"@)
    } else if widget_type == "git-worktree"@ {
        Some("git_branch"@)
    } else if widget_type == "session-cost"@ || widget_type == "block-timer"@ {
        Some("cost"@)
    } else if widget_type == "session-duration"@ || widget_type == "api-duration"@ {
        Some("duration"@)
    } else if widget_type == "separator"@ {
        Some("separator_fg"@)
    } else {
        None
    }
}

pub open spec fn theme_names() -> Seq<Seq<char>> {
    seq!["default"@, "solarized"@, "nord"@, "dracula"@, "gruvbox"@, "monokai"@, "light"@, "high-contrast"@, "one-dark"@, "tokyo-night"@, "catppuccin"@]
}

/// The role/color pairs of the `default` theme.
pub open spec fn default_theme_pairs() -> Seq<(Seq<char>, Seq<char>)> {
    seq![
        ("model"@, "cyan"@),
        ("context_ok"@, "green"@),
        ("context_warn"@, "yellow"@),
        ("context_critical"@, "red"@),
        ("git_branch"@, "magenta"@),
        ("git_clean"@, "green"@),
        ("git_dirty"@, "yellow"@),
        ("cost"@, "yellow"@),
        ("duration"@, "white"@),
        ("separator_fg"@, "brightBlack"@),
    ]
}

/// The role/color pairs of the `solarized` theme.
pub open spec fn solarized_pairs() -> Seq<(Seq<char>, Seq<char>)> {
    seq![
        ("model"@, "#268bd2"@),
        ("context_ok"@, "#859900"@),
        ("context_warn"@, "#b58900"@),
        ("context_critical"@, "#dc322f"@),
        ("git_branch"@, "#6c71c4"@),
        ("git_clean"@, "#859900"@),
        ("git_dirty"@, "#cb4b16"@),
        ("cost"@, "#b58900"@),
        ("duration"@, "#93a1a1"@),
        ("separator_fg"@, "#586e75"@),
    ]
}

/// The role/color pairs of the `nord` theme.
pub open spec fn nord_pairs() -> Seq<(Seq<char>, Seq<char>)> {
    seq![
        ("model"@, "#88c0d0"@),
        ("context_ok"@, "#a3be8c"@),
        ("context_warn"@, "#ebcb8b"@),
        ("context_critical"@, "#bf616a"@),
        ("git_branch"@, "#b48ead"@),
        ("git_clean"@, "#a3be8c"@),
        ("git_dirty"@, "#d08770"@),
        ("cost"@, "#ebcb8b"@),
        ("duration"@, "#d8dee9"@),
        ("separator_fg"@, "#4c566a"@),
    ]
}

/// The role/color pairs of the `dracula` theme.
pub open spec fn dracula_pairs() -> Seq<(Seq<char>, Seq<char>)> {
    seq![
        ("model"@, "#8be9fd"@),
        ("context_ok"@, "#50fa7b"@),
        ("context_warn"@, "#f1fa8c"@),
        ("context_critical"@, "#ff5555"@),
        ("git_branch"@, "#bd93f9"@),
        ("git_clean"@, "#50fa7b"@),
        ("git_dirty"@, "#ffb86c"@),
        ("cost"@, "#f1fa8c"@),
        ("duration"@, "#f8f8f2"@),
        ("separator_fg"@, "#6272a4"@),
    ]
}

/// The role/color pairs of the `gruvbox` theme.
pub open spec fn gruvbox_pairs() -> Seq<(Seq<char>, Seq<char>)> {
    seq![
        ("model"@, "#83a598"@),
        ("context_ok"@, "#b8bb26"@),
        ("context_warn"@, "#fabd2f"@),
        ("context_critical"@, "#fb4934"@),
        ("git_branch"@, "#d3869b"@),
        ("git_clean"@, "#b8bb26"@),
        ("git_dirty"@, "#fe8019"@),
        ("cost"@, "#fabd2f"@),
        ("duration"@, "#ebdbb2"@),
        ("separator_fg"@, "#665c54"@),
    ]
}

/// The role/color pairs of the `monokai` theme.
pub open spec fn monokai_pairs() -> Seq<(Seq<char>, Seq<char>)> {
    seq![
        ("model"@, "#66d9ef"@),
        ("context_ok"@, "#a6e22e"@),
        ("context_warn"@, "#e6db74"@),
        ("context_critical"@, "#f92672"@),
        ("git_branch"@, "#ae81ff"@),
        ("git_clean"@, "#a6e22e"@),
        ("git_dirty"@, "#fd971f"@),
        ("cost"@, "#e6db74"@),
        ("duration"@, "#f8f8f2"@),
        ("separator_fg"@, "#75715e"@),
    ]
}

/// The role/color pairs of the `light` theme.
pub open spec fn light_pairs() -> Seq<(Seq<char>, Seq<char>)> {
    seq![
        ("model"@, "#0550ae"@),
        ("context_ok"@, "#116329"@),
        ("context_warn"@, "#9a6700"@),
        ("context_critical"@, "#cf222e"@),
        ("git_branch"@, "#8250df"@),
        ("git_clean"@, "#116329"@),
        ("git_dirty"@, "#bc4c00"@),
        ("cost"@, "#9a6700"@),
        ("duration"@, "#24292f"@),
        ("separator_fg"@, "#656d76"@),
    ]
}

/// The role/color pairs of the `high-contrast` theme.
pub open spec fn high_contrast_pairs() -> Seq<(Seq<char>, Seq<char>)> {
    seq![
        ("model"@, "#71b7ff"@),
        ("context_ok"@, "#3fb950"@),
        ("context_warn"@, "#d29922"@),
        ("context_critical"@, "#ff7b72"@),
        ("git_branch"@, "#d2a8ff"@),
        ("git_clean"@, "#3fb950"@),
        ("git_dirty"@, "#f0883e"@),
        ("cost"@, "#d29922"@),
        ("duration"@, "#f0f6fc"@),
        ("separator_fg"@, "#8b949e"@),
    ]
}

/// The role/color pairs of the `one-dark` theme.
pub open spec fn one_dark_pairs() -> Seq<(Seq<char>, Seq<char>)> {
    seq![
        ("model"@, "#61afef"@),
        ("context_ok"@, "#98c379"@),
        ("context_warn"@, "#e5c07b"@),
        ("context_critical"@, "#e06c75"@),
        ("git_branch"@, "#c678dd"@),
        ("git_clean"@, "#98c379"@),
        ("git_dirty"@, "#d19a66"@),
        ("cost"@, "#e5c07b"@),
        ("duration"@, "#abb2bf"@),
        ("separator_fg"@, "#5c6370"@),
    ]
}

/// The role/color pairs of the `tokyo-night` theme.
pub open spec fn tokyo_night_pairs() -> Seq<(Seq<char>, Seq<char>)> {
    seq![
        ("model"@, "#7aa2f7"@),
        ("context_ok"@, "#9ece6a"@),
        ("context_warn"@, "#e0af68"@),
        ("context_critical"@, "#f7768e"@),
        ("git_branch"@, "#bb9af7"@),
        ("git_clean"@, "#9ece6a"@),
        ("git_dirty"@, "#ff9e64"@),
        ("cost"@, "#e0af68"@),
        ("duration"@, "#c0caf5"@),
        ("separator_fg"@, "#565f89"@),
    ]
}

/// The role/color pairs of the `catppuccin` theme.
pub open spec fn catppuccin_pairs() -> Seq<(Seq<char>, Seq<char>)> {
    seq![
        ("model"@, "#89b4fa"@),
        ("context_ok"@, "#a6e3a1"@),
        ("context_warn"@, "#f9e2af"@),
        ("context_critical"@, "#f38ba8"@),
        ("git_branch"@, "#cba6f7"@),
        ("git_clean"@, "#a6e3a1"@),
        ("git_dirty"@, "#fab387"@),
        ("cost"@, "#f9e2af"@),
        ("duration"@, "#cdd6f4"@),
        ("separator_fg"@, "#585b70"@),
    ]
}

/// The pairs and the name of the theme that `name` selects; the default
/// theme for an unknown name.
pub open spec fn theme_for(name: Seq<char>) -> (Seq<(Seq<char>, Seq<char>)>, Seq<char>) {
    if name == "solarized"@ {
        (solarized_pairs(), "solarized"@)
    } else if name == "nord"@ {
        (nord_pairs(), "nord"@)
    } else if name == "dracula"@ {
        (dracula_pairs(), "dracula"@)
    } else if name == "gruvbox"@ {
        (gruvbox_pairs(), "gruvbox"@)
    } else if name == "monokai"@ {
        (monokai_pairs(), "monokai"@)
    } else if name == "light"@ {
        (light_pairs(), "light"@)
    } else if name == "high-contrast"@ {
        (high_contrast_pairs(), "high-contrast"@)
    } else if name == "one-dark"@ {
        (one_dark_pairs(), "one-dark"@)
    } else if name == "tokyo-night"@ {
        (tokyo_night_pairs(), "tokyo-night"@)
    } else if name == "catppuccin"@ {
        (catppuccin_pairs(), "catppuccin"@)
    } else {
        (default_theme_pairs(), "default"@)
    }
}

fn pair(role: &str, color: &str) -> (r: (String, String))
    ensures
        r.0@ == role@,
        r.1@ == color@,
{
    (String::from_str(role), String::from_str(color))
}

impl Theme {
    /// The theme called `name`, or the default theme.
    pub fn get(name: &str) -> (r: Self)
        ensures
            (r.pairs(), r.name@) == theme_for(name@),
    {
        if str_eq(name, "solarized") {
            Self::solarized()
        } else if str_eq(name, "nord") {
            Self::nord()
        } else if str_eq(name, "dracula") {
            Self::dracula()
        } else if str_eq(name, "gruvbox") {
            Self::gruvbox()
        } else if str_eq(name, "monokai") {
            Self::monokai()
        } else if str_eq(name, "light") {
            Self::light()
        } else if str_eq(name, "high-contrast") {
            Self::high_contrast()
        } else if str_eq(name, "one-dark") {
            Self::one_dark()
        } else if str_eq(name, "tokyo-night") {
            Self::tokyo_night()
        } else if str_eq(name, "catppuccin") {
            Self::catppuccin()
        } else {
            Self::default_theme()
        }
    }

    /// The names of the built-in themes.
    pub fn list() -> (r: Vec<&'static str>)
        ensures
            r@.map_values(|s: &str| s@) == theme_names(),
    {
        let r = vec!["default", "solarized", "nord", "dracula", "gruvbox", "monokai", "light", "high-contrast", "one-dark", "tokyo-night", "catppuccin"];
        assert(r@.map_values(|s: &str| s@) =~= theme_names());
        r
    }

    /// The color this theme gives `role`.
    pub fn color(&self, role: &str) -> (r: Option<&str>)
        ensures
            match r {
                Some(c) => lookup(self.pairs(), role@) == Some(c@),
                None => lookup(self.pairs(), role@) is None,
            },
    {
        let n = self.colors.len();
        let mut i: usize = 0;
        assert(self.pairs().subrange(0, n as int) == self.pairs());
        while i < n
            invariant
                n == self.colors@.len(),
                i <= n,
                lookup(self.pairs(), role@) == lookup(self.pairs().subrange(i as int, n as int), role@),
            decreases n - i,
        {
            let ghost rest = self.pairs().subrange(i as int, n as int);
            assert(rest.drop_first() == self.pairs().subrange(i + 1, n as int));
            assert(rest[0] == (self.colors@[i as int].0@, self.colors@[i as int].1@));
            if str_eq(self.colors[i].0.as_str(), role) {
                assert(rest[0].0 == role@);
                return Some(self.colors[i].1.as_str());
            }
            i = i + 1;
        }
        None
    }

    /// The color this theme gives the role of `widget_type`, if it has one.
    pub fn role_for_widget(&self, widget_type: &str) -> (r: Option<&str>)
        ensures
            match widget_role(widget_type@) {
                Some(role) => match r {
                    Some(c) => lookup(self.pairs(), role) == Some(c@),
                    None => lookup(self.pairs(), role) is None,
                },
                None => r is None,
            },
    {
        let role = if str_eq(widget_type, "model") {
            "model"
        } else if str_eq(widget_type, "context-percentage") || str_eq(widget_type, "context-length") {
            "context_ok"
        } else if str_eq(widget_type, "git-branch") {
            "git_branch"
        } else if str_eq(widget_type, "git-status") {
            "git_clean"
        } else if str_eq(widget_type, "git-worktree") {
            "git_branch"
        } else if str_eq(widget_type, "session-cost") || str_eq(widget_type, "block-timer") {
            "cost"
        } else if str_eq(widget_type, "session-duration") || str_eq(widget_type, "api-duration") {
            "duration"
        } else if str_eq(widget_type, "separator") {
            "separator_fg"
        } else {
            return None;
        };
        self.color(role)
    }

    pub fn default_theme() -> (r: Self)
        ensures
            r.name@ == "default"@,
            r.pairs() == default_theme_pairs(),
    {
        let colors = vec![
            pair("model", "cyan"),
            pair("context_ok", "green"),
            pair("context_warn", "yellow"),
            pair("context_critical", "red"),
            pair("git_branch", "magenta"),
            pair("git_clean", "green"),
            pair("git_dirty", "yellow"),
            pair("cost", "yellow"),
            pair("duration", "white"),
            pair("separator_fg", "brightBlack"),
        ];
        assert(pairs_view(colors@) =~= default_theme_pairs());
        Theme { name: String::from_str("default"), colors }
    }

    pub fn solarized() -> (r: Self)
        ensures
            r.name@ == "solarized"@,
            r.pairs() == solarized_pairs(),
    {
        let colors = vec![
            pair("model", "#268bd2"),
            pair("context_ok", "#859900"),
            pair("context_warn", "#b58900"),
            pair("context_critical", "#dc322f"),
            pair("git_branch", "#6c71c4"),
            pair("git_clean", "#859900"),
            pair("git_dirty", "#cb4b16"),
            pair("cost", "#b58900"),
            pair("duration", "#93a1a1"),
            pair("separator_fg", "#586e75"),
        ];
        assert(pairs_view(colors@) =~= solarized_pairs());
        Theme { name: String::from_str("solarized"), colors }
    }

    pub fn nord() -> (r: Self)
        ensures
            r.name@ == "nord"@,
            r.pairs() == nord_pairs(),
    {
        let colors = vec![
            pair("model", "#88c0d0"),
            pair("context_ok", "#a3be8c"),
            pair("context_warn", "#ebcb8b"),
            pair("context_critical", "#bf616a"),
            pair("git_branch", "#b48ead"),
            pair("git_clean", "#a3be8c"),
            pair("git_dirty", "#d08770"),
            pair("cost", "#ebcb8b"),
            pair("duration", "#d8dee9"),
            pair("separator_fg", "#4c566a"),
        ];
        assert(pairs_view(colors@) =~= nord_pairs());
        Theme { name: String::from_str("nord"), colors }
    }

    pub fn dracula() -> (r: Self)
        ensures
            r.name@ == "dracula"@,
            r.pairs() == dracula_pairs(),
    {
        let colors = vec![
            pair("model", "#8be9fd"),
            pair("context_ok", "#50fa7b"),
            pair("context_warn", "#f1fa8c"),
            pair("context_critical", "#ff5555"),
            pair("git_branch", "#bd93f9"),
            pair("git_clean", "#50fa7b"),
            pair("git_dirty", "#ffb86c"),
            pair("cost", "#f1fa8c"),
            pair("duration", "#f8f8f2"),
            pair("separator_fg", "#6272a4"),
        ];
        assert(pairs_view(colors@) =~= dracula_pairs());
        Theme { name: String::from_str("dracula"), colors }
    }

    pub fn gruvbox() -> (r: Self)
        ensures
            r.name@ == "gruvbox"@,
            r.pairs() == gruvbox_pairs(),
    {
        let colors = vec![
            pair("model", "#83a598"),
            pair("context_ok", "#b8bb26"),
            pair("context_warn", "#fabd2f"),
            pair("context_critical", "#fb4934"),
            pair("git_branch", "#d3869b"),
            pair("git_clean", "#b8bb26"),
            pair("git_dirty", "#fe8019"),
            pair("cost", "#fabd2f"),
            pair("duration", "#ebdbb2"),
            pair("separator_fg", "#665c54"),
        ];
        assert(pairs_view(colors@) =~= gruvbox_pairs());
        Theme { name: String::from_str("gruvbox"), colors }
    }

    pub fn monokai() -> (r: Self)
        ensures
            r.name@ == "monokai"@,
            r.pairs() == monokai_pairs(),
    {
        let colors = vec![
            pair("model", "#66d9ef"),
            pair("context_ok", "#a6e22e"),
            pair("context_warn", "#e6db74"),
            pair("context_critical", "#f92672"),
            pair("git_branch", "#ae81ff"),
            pair("git_clean", "#a6e22e"),
            pair("git_dirty", "#fd971f"),
            pair("cost", "#e6db74"),
            pair("duration", "#f8f8f2"),
            pair("separator_fg", "#75715e"),
        ];
        assert(pairs_view(colors@) =~= monokai_pairs());
        Theme { name: String::from_str("monokai"), colors }
    }

    pub fn light() -> (r: Self)
        ensures
            r.name@ == "light"@,
            r.pairs() == light_pairs(),
    {
        let colors = vec![
            pair("model", "#0550ae"),
            pair("context_ok", "#116329"),
            pair("context_warn", "#9a6700"),
            pair("context_critical", "#cf222e"),
            pair("git_branch", "#8250df"),
            pair("git_clean", "#116329"),
            pair("git_dirty", "#bc4c00"),
            pair("cost", "#9a6700"),
            pair("duration", "#24292f"),
            pair("separator_fg", "#656d76"),
        ];
        assert(pairs_view(colors@) =~= light_pairs());
        Theme { name: String::from_str("light"), colors }
    }

    pub fn high_contrast() -> (r: Self)
        ensures
            r.name@ == "high-contrast"@,
            r.pairs() == high_contrast_pairs(),
    {
        let colors = vec![
            pair("model", "#71b7ff"),
            pair("context_ok", "#3fb950"),
            pair("context_warn", "#d29922"),
            pair("context_critical", "#ff7b72"),
            pair("git_branch", "#d2a8ff"),
            pair("git_clean", "#3fb950"),
            pair("git_dirty", "#f0883e"),
            pair("cost", "#d29922"),
            pair("duration", "#f0f6fc"),
            pair("separator_fg", "#8b949e"),
        ];
        assert(pairs_view(colors@) =~= high_contrast_pairs());
        Theme { name: String::from_str("high-contrast"), colors }
    }

    pub fn one_dark() -> (r: Self)
        ensures
            r.name@ == "one-dark"@,
            r.pairs() == one_dark_pairs(),
    {
        let colors = vec![
            pair("model", "#61afef"),
            pair("context_ok", "#98c379"),
            pair("context_warn", "#e5c07b"),
            pair("context_critical", "#e06c75"),
            pair("git_branch", "#c678dd"),
            pair("git_clean", "#98c379"),
            pair("git_dirty", "#d19a66"),
            pair("cost", "#e5c07b"),
            pair("duration", "#abb2bf"),
            pair("separator_fg", "#5c6370"),
        ];
        assert(pairs_view(colors@) =~= one_dark_pairs());
        Theme { name: String::from_str("one-dark"), colors }
    }

    pub fn tokyo_night() -> (r: Self)
        ensures
            r.name@ == "tokyo-night"@,
            r.pairs() == tokyo_night_pairs(),
    {
        let colors = vec![
            pair("model", "#7aa2f7"),
            pair("context_ok", "#9ece6a"),
            pair("context_warn", "#e0af68"),
            pair("context_critical", "#f7768e"),
            pair("git_branch", "#bb9af7"),
            pair("git_clean", "#9ece6a"),
            pair("git_dirty", "#ff9e64"),
            pair("cost", "#e0af68"),
            pair("duration", "#c0caf5"),
            pair("separator_fg", "#565f89"),
        ];
        assert(pairs_view(colors@) =~= tokyo_night_pairs());
        Theme { name: String::from_str("tokyo-night"), colors }
    }

    pub fn catppuccin() -> (r: Self)
        ensures
            r.name@ == "catppuccin"@,
            r.pairs() == catppuccin_pairs(),
    {
        let colors = vec![
            pair("model", "#89b4fa"),
            pair("context_ok", "#a6e3a1"),
            pair("context_warn", "#f9e2af"),
            pair("context_critical", "#f38ba8"),
            pair("git_branch", "#cba6f7"),
            pair("git_clean", "#a6e3a1"),
            pair("git_dirty", "#fab387"),
            pair("cost", "#f9e2af"),
            pair("duration", "#cdd6f4"),
            pair("separator_fg", "#585b70"),
        ];
        assert(pairs_view(colors@) =~= catppuccin_pairs());
        Theme { name: String::from_str("catppuccin"), colors }
    }
}

} // verus!

//! Layout engine: turns each configured line's widget outputs into one
//! styled string bounded by a display width.
use vstd::prelude::*;

use crate::render::{
    bold_seq, color_seq, parse_color_value, reset_seq, ColorLevel, ColorSpec, ColorValue,
    Renderer,
};
use crate::text::{
    display_width, measured_width, repeat_seq, repeat_str, str_eq, strip_escapes, visible_width,
};
use crate::theme::{lookup, widget_role, Theme};
use crate::widgets::{known_widget, render_widget, widget_output, SessionData};

verus! {

/// What a widget produced for one render.
pub struct WidgetOutput {
    pub text: String,
    /// Display width of `text`, measured by the widget.
    pub display_width: usize,
    /// Reserved for ordering; the layout does not read it.
    pub priority: u8,
    /// Invisible outputs take no part in a line.
    pub visible: bool,
    /// A color the widget asks for (e.g. red when a cost is critical).
    pub color_hint: Option<String>,
}

/// One widget slot of a configured line.
#[derive(Debug, Clone, Default)]
pub struct WidgetConfig {
    pub widget_type: String,
    pub id: String,
    pub color: Option<String>,
    pub background_color: Option<String>,
    pub bold: Option<bool>,
    pub raw_value: bool,
    pub padding: Option<String>,
    /// Suppresses the separator that would follow this slot.
    pub merge_next: bool,
    /// Widget-specific parameters, as key/value pairs.
    pub metadata: Vec<(String, String)>,
}

/// Powerline settings.
#[derive(Debug, Clone, Default)]
pub struct PowerlineConfig {
    pub enabled: bool,
    pub separator: String,
    pub start_cap: Option<String>,
    pub end_cap: Option<String>,
    pub auto_align: bool,
}

/// The layout configuration: lines of widget slots and global styling.
#[derive(Debug, Clone, Default)]
pub struct Config {
    pub lines: Vec<Vec<WidgetConfig>>,
    pub theme: String,
    pub default_separator: String,
    pub default_padding: String,
    pub global_bold: bool,
    pub flex_mode: String,
    pub powerline: PowerlineConfig,
}

/// A visible widget's output together with its slot configuration.
pub type Slot<'b> = (&'b WidgetOutput, &'b WidgetConfig);

pub open spec fn opt_seq(o: Option<String>) -> Option<Seq<char>> {
    match o {
        Some(s) => Some(s@),
        None => None,
    }
}

pub open spec fn is_flex(wc: WidgetConfig) -> bool {
    wc.widget_type@ == "flex-separator"@
}

/// A separator is due before slot `k` unless it is first or its
/// predecessor merges with it.
pub open spec fn sep_due<'b>(items: Seq<Slot<'b>>, k: int) -> bool {
    k > 0 && !items[k - 1].1.merge_next
}

/// The foreground color chosen by priority: the slot's explicit color, then
/// the widget's hint, then the theme's color for the widget's role.
pub open spec fn fg_choice(
    theme: Seq<(Seq<char>, Seq<char>)>,
    wc: WidgetConfig,
    out: WidgetOutput,
) -> Option<Seq<char>> {
    match wc.color {
        Some(c) => Some(c@),
        None => match out.color_hint {
            Some(h) => Some(h@),
            None => match widget_role(wc.widget_type@) {
                Some(role) => lookup(theme, role),
                None => None,
            },
        },
    }
}

/// Foreground color resolution follows the priority chain: an explicit slot
/// color wins over everything, a widget's hint wins over the theme, and the
/// theme's role color is used only when neither is present.
pub proof fn lemma_fg_priority(
    theme: Seq<(Seq<char>, Seq<char>)>,
    wc: WidgetConfig,
    out: WidgetOutput,
)
    ensures
        wc.color is Some ==> fg_choice(theme, wc, out) == Some(wc.color.unwrap()@),
        wc.color is None && out.color_hint is Some ==> fg_choice(theme, wc, out) == Some(
            out.color_hint.unwrap()@,
        ),
        wc.color is None && out.color_hint is None ==> fg_choice(theme, wc, out) == match widget_role(
            wc.widget_type@,
        ) {
            Some(role) => lookup(theme, role),
            None => None,
        },
{
}

/// The background of a chip: the slot's, else black.
pub open spec fn bg_name(wc: WidgetConfig) -> Seq<char> {
    match wc.background_color {
        Some(b) => b@,
        None => "black"@,
    }
}

pub open spec fn bg_value(wc: WidgetConfig) -> ColorValue {
    parse_color_value(bg_name(wc))
}

/// The slots that are not flex, in order.
pub open spec fn drop_flex<'b>(items: Seq<Slot<'b>>) -> Seq<Slot<'b>>
    decreases items.len(),
{
    if items.len() == 0 {
        items
    } else {
        let r = drop_flex(items.drop_last());
        if is_flex(*items.last().1) {
            r
        } else {
            r.push(items.last())
        }
    }
}

/// The position of the first flex slot at or after `k`.
pub open spec fn first_flex<'b>(items: Seq<Slot<'b>>, k: nat) -> Option<int>
    decreases items.len() - k,
{
    if k >= items.len() {
        None
    } else if is_flex(*items[k as int].1) {
        Some(k as int)
    } else {
        first_flex(items, k + 1)
    }
}

pub proof fn lemma_first_flex_skip<'b>(items: Seq<Slot<'b>>, k: nat, i: nat)
    requires
        k <= i <= items.len(),
        forall|j: int| k <= j < i ==> !is_flex(*#[trigger] items[j].1),
    ensures
        first_flex(items, k) == first_flex(items, i),
    decreases i - k,
{
    if k < i {
        lemma_first_flex_skip(items, k + 1, i);
    }
}

/// The visible outputs among the first `k` slots of a line, each with its
/// slot; a slot with no output counts as invisible.
pub open spec fn visible_slots<'b>(
    outs: Seq<WidgetOutput>,
    cfgs: Seq<WidgetConfig>,
    k: nat,
) -> Seq<Slot<'b>>
    decreases k,
{
    if k == 0 {
        Seq::empty()
    } else {
        let r = visible_slots(outs, cfgs, (k - 1) as nat);
        if k - 1 < outs.len() && outs[k - 1].visible {
            r.push((&outs[k - 1], &cfgs[k - 1]))
        } else {
            r
        }
    }
}

/// Display width of a line once its escapes are removed.
pub open spec fn line_width(l: Seq<char>) -> nat {
    measured_width(strip_escapes(l))
}

/// The widest line among the first `k`.
pub open spec fn max_line_width(lines: Seq<Seq<char>>, k: nat) -> nat
    decreases k,
{
    if k == 0 {
        0
    } else {
        let m = max_line_width(lines, (k - 1) as nat);
        let w = line_width(lines[k - 1]);
        if w > m {
            w
        } else {
            m
        }
    }
}

/// Every line right-padded with plain spaces to the widest line's width.
pub open spec fn aligned(lines: Seq<Seq<char>>) -> Seq<Seq<char>> {
    lines.map(
        |i: int, l: Seq<char>|
            l + repeat_seq(" "@, (max_line_width(lines, lines.len()) - line_width(l)) as nat),
    )
}

pub proof fn lemma_max_line_width(lines: Seq<Seq<char>>, k: nat)
    requires
        k <= lines.len(),
    ensures
        forall|i: int| 0 <= i < k ==> line_width(#[trigger] lines[i]) <= max_line_width(lines, k),
        k > 0 ==> exists|i: int| 0 <= i < k && line_width(lines[i]) == max_line_width(lines, k),
    decreases k,
{
    if k > 0 {
        lemma_max_line_width(lines, (k - 1) as nat);
        if k > 1 {
            let i = choose|i: int| 0 <= i < k - 1 && line_width(lines[i]) == max_line_width(lines, (k - 1) as nat);
        }
    }
}

/// Auto-align pads every line on its right with exactly as many plain
/// spaces as it is narrower than the widest line, and nothing else: the
/// padding carries no escape sequence and no line is cut.
pub proof fn lemma_auto_align(lines: Seq<Seq<char>>)
    ensures
        aligned(lines).len() == lines.len(),
        forall|i: int|
            0 <= i < lines.len() ==> {
                &&& line_width(#[trigger] lines[i]) <= max_line_width(lines, lines.len())
                &&& aligned(lines)[i] == lines[i] + repeat_seq(
                    " "@,
                    (max_line_width(lines, lines.len()) - line_width(lines[i])) as nat,
                )
            },
{
    lemma_max_line_width(lines, lines.len());
}

/// The column budget for a flex mode: the terminal's width (120 when it is
/// unknown) for `full`, 60 for `compact`, else the width less 40.
pub open spec fn width_for_mode(columns: Option<u16>, mode: Seq<char>) -> nat {
    let w: nat = match columns {
        Some(c) => c as nat,
        None => 120,
    };
    if mode == "full"@ {
        w
    } else if mode == "compact"@ {
        60
    } else if w >= 40 {
        (w - 40) as nat
    } else {
        0
    }
}

/// The output of the widget in slot `wc`: what that widget renders, or
/// nothing visible when no widget has the slot's type.
pub open spec fn slot_output(data: SessionData, wc: WidgetConfig, o: WidgetOutput) -> bool {
    if known_widget(wc.widget_type@) {
        widget_output(wc.widget_type@, data, wc, o)
    } else {
        !o.visible
    }
}

pub struct LayoutEngine<'a> {
    pub config: &'a Config,
    pub renderer: &'a Renderer,
    pub theme: Theme,
}

impl<'a> LayoutEngine<'a> {
    pub open spec fn level(&self) -> ColorLevel {
        self.renderer.color_level
    }

    pub open spec fn padding_of(&self, wc: WidgetConfig) -> Seq<char> {
        match wc.padding {
            Some(p) => p@,
            None => self.config.default_padding@,
        }
    }

    pub open spec fn pad_w(&self, wc: WidgetConfig) -> int {
        measured_width(self.padding_of(wc)) as int
    }

    pub open spec fn bold_on(&self, wc: WidgetConfig) -> bool {
        match wc.bold {
            Some(b) => b,
            None => self.config.global_bold,
        }
    }

    pub open spec fn fg_part(&self, wc: WidgetConfig, out: WidgetOutput) -> Seq<char> {
        match fg_choice(self.theme.pairs(), wc, out) {
            Some(f) => color_seq(self.level(), parse_color_value(f), false),
            None => Seq::empty(),
        }
    }

    pub open spec fn bold_part(&self, wc: WidgetConfig) -> Seq<char> {
        if self.bold_on(wc) {
            bold_seq(self.level())
        } else {
            Seq::empty()
        }
    }

    /// `text` styled for standard mode: background, foreground, bold, then a reset.
    pub open spec fn styled(&self, text: Seq<char>, wc: WidgetConfig, out: WidgetOutput) -> Seq<
        char,
    > {
        (match wc.background_color {
            Some(b) => color_seq(self.level(), parse_color_value(b@), true),
            None => Seq::empty(),
        }) + self.fg_part(wc, out) + self.bold_part(wc) + text + reset_seq(self.level())
    }

    /// A powerline chip: background always set, padding inside the colors.
    pub open spec fn chip(
        &self,
        text: Seq<char>,
        wc: WidgetConfig,
        bg: ColorValue,
        out: WidgetOutput,
    ) -> Seq<char> {
        color_seq(self.level(), bg, true) + self.fg_part(wc, out) + self.bold_part(wc)
            + self.padding_of(wc) + text + self.padding_of(wc) + reset_seq(self.level())
    }

    // -----------------------------------------------------------------------
    // Width plan shared by the standard assembly and powerline segments.

    /// Width used once the first `k` slots are emitted, starting from `t0`.
    pub open spec fn run_total<'b>(&self, items: Seq<Slot<'b>>, sep_w: int, t0: int, k: nat) -> int
        decreases k,
    {
        if k == 0 {
            t0
        } else {
            self.run_total(items, sep_w, t0, (k - 1) as nat) + (if sep_due(items, k - 1) {
                sep_w
            } else {
                0
            }) + items[k - 1].0.display_width + 2 * self.pad_w(*items[k - 1].1)
        }
    }

    /// Slot `k` fits: its separator (if due) and its text stay within `max`.
    pub open spec fn run_fits<'b>(
        &self,
        items: Seq<Slot<'b>>,
        sep_w: int,
        t0: int,
        max: int,
        k: nat,
    ) -> bool {
        self.run_total(items, sep_w, t0, k) + (if sep_due(items, k as int) {
            sep_w
        } else {
            0
        }) + items[k as int].0.display_width <= max
    }

    pub open spec fn run_count_from<'b>(
        &self,
        items: Seq<Slot<'b>>,
        sep_w: int,
        t0: int,
        max: int,
        k: nat,
    ) -> nat
        decreases items.len() - k,
    {
        if k >= items.len() {
            items.len()
        } else if !self.run_fits(items, sep_w, t0, max, k) {
            k
        } else {
            self.run_count_from(items, sep_w, t0, max, k + 1)
        }
    }

    /// How many leading slots are emitted: all up to the first that does not fit.
    pub open spec fn run_count<'b>(
        &self,
        items: Seq<Slot<'b>>,
        sep_w: int,
        t0: int,
        max: int,
    ) -> nat {
        self.run_count_from(items, sep_w, t0, max, 0)
    }

    pub proof fn lemma_run_count_skip<'b>(
        &self,
        items: Seq<Slot<'b>>,
        sep_w: int,
        t0: int,
        max: int,
        k: nat,
        i: nat,
    )
        requires
            k <= i <= items.len(),
            forall|j: nat| k <= j < i ==> self.run_fits(items, sep_w, t0, max, j),
        ensures
            self.run_count_from(items, sep_w, t0, max, k) == self.run_count_from(
                items,
                sep_w,
                t0,
                max,
                i,
            ),
        decreases i - k,
    {
        if k < i {
            assert(self.run_fits(items, sep_w, t0, max, k));
            self.lemma_run_count_skip(items, sep_w, t0, max, k + 1, i);
        }
    }

    pub proof fn lemma_run_count_bounds<'b>(
        &self,
        items: Seq<Slot<'b>>,
        sep_w: int,
        t0: int,
        max: int,
        k: nat,
    )
        requires
            k <= items.len(),
        ensures
            k <= self.run_count_from(items, sep_w, t0, max, k) <= items.len(),
            forall|j: nat|
                k <= j < self.run_count_from(items, sep_w, t0, max, k) ==> self.run_fits(
                    items,
                    sep_w,
                    t0,
                    max,
                    j,
                ),
            self.run_count_from(items, sep_w, t0, max, k) < items.len() ==> !self.run_fits(
                items,
                sep_w,
                t0,
                max,
                self.run_count_from(items, sep_w, t0, max, k),
            ),
        decreases items.len() - k,
    {
        if k < items.len() && self.run_fits(items, sep_w, t0, max, k) {
            self.lemma_run_count_bounds(items, sep_w, t0, max, k + 1);
        }
    }

    // -----------------------------------------------------------------------
    // Standard assembly.

    pub open spec fn sep_width(&self) -> int {
        measured_width(self.config.default_separator@) as int
    }

    pub open spec fn std_piece<'b>(&self, items: Seq<Slot<'b>>, k: int) -> Seq<char> {
        (if sep_due(items, k) {
            self.config.default_separator@
        } else {
            Seq::empty()
        }) + self.padding_of(*items[k].1) + self.styled(items[k].0.text@, *items[k].1, *items[k].0)
            + self.padding_of(*items[k].1)
    }

    pub open spec fn std_pieces<'b>(&self, items: Seq<Slot<'b>>, k: nat) -> Seq<char>
        decreases k,
    {
        if k == 0 {
            Seq::empty()
        } else {
            self.std_pieces(items, (k - 1) as nat) + self.std_piece(items, k - 1)
        }
    }

    /// How many leading widgets the standard assembly emits within `max`.
    pub open spec fn std_count<'b>(&self, items: Seq<Slot<'b>>, max: int) -> nat {
        self.run_count(items, self.sep_width(), 0, max)
    }

    /// The standard line: the emitted widgets, then a reset.
    pub open spec fn standard_line<'b>(&self, items: Seq<Slot<'b>>, max: int) -> Seq<char> {
        self.std_pieces(items, self.std_count(items, max)) + reset_seq(self.level())
    }

    // -----------------------------------------------------------------------
    // Flex assembly.

    /// A separator is due before slot `k` of a line with a flex slot: not
    /// first, predecessor neither merging nor the flex slot itself.
    pub open spec fn flex_sep_due<'b>(items: Seq<Slot<'b>>, k: int) -> bool {
        k > 0 && !items[k - 1].1.merge_next && !is_flex(*items[k - 1].1)
    }

    /// Width of the first `k` slots that are not flex, with their separators.
    pub open spec fn fixed_width<'b>(&self, items: Seq<Slot<'b>>, k: nat) -> int
        decreases k,
    {
        if k == 0 {
            0
        } else {
            self.fixed_width(items, (k - 1) as nat) + if is_flex(*items[k - 1].1) {
                0
            } else {
                (if Self::flex_sep_due(items, k - 1) {
                    self.sep_width()
                } else {
                    0
                }) + items[k - 1].0.display_width + 2 * self.pad_w(*items[k - 1].1)
            }
        }
    }

    /// Columns left to the flex slot: `max(0, max - fixed width)`.
    pub open spec fn fill_width<'b>(&self, items: Seq<Slot<'b>>, max: int) -> nat {
        let f = self.fixed_width(items, items.len());
        if f >= max {
            0
        } else {
            (max - f) as nat
        }
    }

    pub open spec fn flex_piece<'b>(&self, items: Seq<Slot<'b>>, k: int, fill: nat) -> Seq<char> {
        if is_flex(*items[k].1) {
            self.styled(repeat_seq(items[k].0.text@, fill), *items[k].1, *items[k].0)
        } else {
            (if Self::flex_sep_due(items, k) {
                self.config.default_separator@
            } else {
                Seq::empty()
            }) + self.padding_of(*items[k].1) + self.styled(
                items[k].0.text@,
                *items[k].1,
                *items[k].0,
            ) + self.padding_of(*items[k].1)
        }
    }

    pub open spec fn flex_pieces<'b>(&self, items: Seq<Slot<'b>>, k: nat, fill: nat) -> Seq<char>
        decreases k,
    {
        if k == 0 {
            Seq::empty()
        } else {
            self.flex_pieces(items, (k - 1) as nat, fill) + self.flex_piece(items, k - 1, fill)
        }
    }

    /// The line with a flex slot: every widget, the flex slot filled with its
    /// text repeated `fill_width` times, then a reset.
    pub open spec fn flex_line<'b>(&self, items: Seq<Slot<'b>>, max: int) -> Seq<char> {
        self.flex_pieces(items, items.len(), self.fill_width(items, max)) + reset_seq(self.level())
    }

    pub open spec fn has_flex<'b>(items: Seq<Slot<'b>>) -> bool {
        exists|k: int| 0 <= k < items.len() && is_flex(*items[k].1)
    }

    /// A line in standard mode.
    pub open spec fn plain_line<'b>(&self, items: Seq<Slot<'b>>, max: int) -> Seq<char> {
        if Self::has_flex(items) {
            self.flex_line(items, max)
        } else {
            self.standard_line(items, max)
        }
    }

    /// In the standard assembly the emitted widgets are exactly the first
    /// `std_count`: each of them fits, and when one is dropped it is the one
    /// that does not fit, with every later one dropped too. When paddings
    /// take no columns, the widths of the emitted widgets and separators sum
    /// to at most `max`.
    pub proof fn lemma_standard_within_width<'b>(&self, items: Seq<Slot<'b>>, max: int)
        requires
            max >= 0,
        ensures
            self.std_count(items, max) <= items.len(),
            forall|j: nat|
                j < self.std_count(items, max) ==> self.run_fits(items, self.sep_width(), 0, max, j),
            self.std_count(items, max) < items.len() ==> !self.run_fits(
                items,
                self.sep_width(),
                0,
                max,
                self.std_count(items, max),
            ),
            (forall|k: int| 0 <= k < items.len() ==> self.pad_w(*#[trigger] items[k].1) == 0)
                ==> self.run_total(items, self.sep_width(), 0, self.std_count(items, max)) <= max,
    {
        let n = self.std_count(items, max);
        self.lemma_run_count_bounds(items, self.sep_width(), 0, max, 0);
        if forall|k: int| 0 <= k < items.len() ==> self.pad_w(*#[trigger] items[k].1) == 0 {
            if n > 0 {
                assert(self.run_fits(items, self.sep_width(), 0, max, (n - 1) as nat));
                assert(self.pad_w(*items[n - 1].1) == 0);
            }
        }
    }

    /// The flex slot receives exactly `max(0, max - fixed)` repetitions of its
    /// text; with a one-column fill text that is `fill_width` columns.
    pub proof fn lemma_flex_fill<'b>(&self, items: Seq<Slot<'b>>, max: int, k: int)
        requires
            0 <= k < items.len(),
            is_flex(*items[k].1),
        ensures
            self.fill_width(items, max) == if max - self.fixed_width(items, items.len()) > 0 {
                max - self.fixed_width(items, items.len())
            } else {
                0
            },
            crate::text::width_of(repeat_seq(items[k].0.text@, self.fill_width(items, max)))
                == self.fill_width(items, max) * crate::text::width_of(items[k].0.text@),
            crate::text::width_of(items[k].0.text@) == 1 ==> crate::text::width_of(
                repeat_seq(items[k].0.text@, self.fill_width(items, max)),
            ) == self.fill_width(items, max),
    {
        crate::text::lemma_width_repeat(items[k].0.text@, self.fill_width(items, max));
    }

    // -----------------------------------------------------------------------
    // Powerline assembly.

    pub open spec fn pl_sep_width(&self) -> int {
        measured_width(self.config.powerline.separator@) as int
    }

    /// A transition glyph: foreground the previous chip's background,
    /// background the current chip's.
    pub open spec fn transition(&self, prev: WidgetConfig, cur: WidgetConfig) -> Seq<char> {
        color_seq(self.level(), bg_value(prev), false) + color_seq(self.level(), bg_value(cur), true)
            + self.config.powerline.separator@ + reset_seq(self.level())
    }

    pub open spec fn seg_piece<'b>(&self, items: Seq<Slot<'b>>, k: int) -> Seq<char> {
        (if sep_due(items, k) {
            self.transition(*items[k - 1].1, *items[k].1)
        } else {
            Seq::empty()
        }) + self.chip(items[k].0.text@, *items[k].1, bg_value(*items[k].1), *items[k].0)
    }

    pub open spec fn seg_pieces<'b>(&self, items: Seq<Slot<'b>>, k: nat) -> Seq<char>
        decreases k,
    {
        if k == 0 {
            Seq::empty()
        } else {
            self.seg_pieces(items, (k - 1) as nat) + self.seg_piece(items, k - 1)
        }
    }

    /// Chips emitted by a powerline segment that starts at column `t0`.
    pub open spec fn seg_count<'b>(&self, items: Seq<Slot<'b>>, t0: int, max: int) -> nat {
        self.run_count(items, self.pl_sep_width(), t0, max)
    }

    pub open spec fn seg_text<'b>(&self, items: Seq<Slot<'b>>, t0: int, max: int) -> Seq<char> {
        self.seg_pieces(items, self.seg_count(items, t0, max))
    }

    pub open spec fn seg_end<'b>(&self, items: Seq<Slot<'b>>, t0: int, max: int) -> int {
        self.run_total(items, self.pl_sep_width(), t0, self.seg_count(items, t0, max))
    }

    /// A cap glyph colored with the background of the chip beside it.
    pub open spec fn cap_seq(&self, cap: Seq<char>, bg: Seq<char>) -> Seq<char> {
        color_seq(self.level(), parse_color_value(bg), false) + cap + reset_seq(self.level())
    }

    /// Width of a right-hand group: chips, the transitions between them and
    /// one leading transition.
    pub open spec fn right_width<'b>(&self, items: Seq<Slot<'b>>, k: nat) -> int
        decreases k,
    {
        if k == 0 {
            0
        } else {
            self.right_width(items, (k - 1) as nat) + (if k - 1 > 0 {
                self.pl_sep_width()
            } else {
                0
            }) + items[k - 1].0.display_width + 2 * self.pad_w(*items[k - 1].1)
        }
    }

    pub open spec fn right_span<'b>(&self, items: Seq<Slot<'b>>) -> int {
        if items.len() > 0 {
            self.right_width(items, items.len()) + self.pl_sep_width()
        } else {
            0
        }
    }

    /// The glyph that closes the left group back to the default background.
    pub open spec fn closing<'b>(&self, left: Seq<Slot<'b>>) -> Seq<char> {
        if left.len() > 0 {
            color_seq(self.level(), bg_value(*left.last().1), false)
                + self.config.powerline.separator@ + reset_seq(self.level())
        } else {
            Seq::empty()
        }
    }

    /// The column after the left group and its closing glyph.
    pub open spec fn after_left<'b>(&self, left: Seq<Slot<'b>>, t0: int, max: int) -> int {
        self.seg_end(left, t0, max) + if left.len() > 0 {
            self.pl_sep_width()
        } else {
            0
        }
    }

    /// Spaces between the groups: what the right group leaves of `max`.
    pub open spec fn gap<'b>(&self, right: Seq<Slot<'b>>, t2: int, max: int) -> nat {
        if max - (t2 + self.right_span(right)) > 0 {
            (max - (t2 + self.right_span(right))) as nat
        } else {
            0
        }
    }

    /// The reverse glyph that opens the right group, and the right group.
    pub open spec fn right_part<'b>(&self, right: Seq<Slot<'b>>, t3: int, max: int) -> Seq<char> {
        if right.len() > 0 {
            color_seq(self.level(), bg_value(*right[0].1), false) + "\u{E0B2}"@ + reset_seq(
                self.level(),
            ) + self.seg_text(right, t3 + 1, max)
        } else {
            Seq::empty()
        }
    }

    /// The body of a powerline line with its flex slot at `f`, from column `t0`.
    pub open spec fn split_body<'b>(&self, items: Seq<Slot<'b>>, f: int, t0: int, max: int) -> Seq<
        char,
    > {
        let left = items.subrange(0, f);
        let right = drop_flex(items.subrange(f + 1, items.len() as int));
        let t2 = self.after_left(left, t0, max);
        let fill = self.gap(right, t2, max);
        self.seg_text(left, t0, max) + self.closing(left) + repeat_seq(" "@, fill)
            + self.right_part(right, t2 + fill, max)
    }

    /// The backgrounds of the first and last chips emitted by a split line
    /// with its flex slot at `f`, starting at column `t0`; black for none.
    pub open spec fn split_edges<'b>(&self, items: Seq<Slot<'b>>, f: int, t0: int, max: int) -> (
        Seq<char>,
        Seq<char>,
    ) {
        let left = items.subrange(0, f);
        let right = drop_flex(items.subrange(f + 1, items.len() as int));
        let cl = self.seg_count(left, t0, max);
        let t2 = self.after_left(left, t0, max);
        let cr = self.seg_count(right, t2 + self.gap(right, t2, max) + 1, max);
        let first = if cl > 0 {
            bg_name(*left[0].1)
        } else if cr > 0 {
            bg_name(*right[0].1)
        } else {
            "black"@
        };
        let last = if cr > 0 {
            bg_name(*right[cr - 1].1)
        } else if cl > 0 {
            bg_name(*left[cl - 1].1)
        } else {
            "black"@
        };
        (first, last)
    }

    /// The backgrounds of the first and last chips a powerline line emits
    /// from column `t0`; black when it emits none.
    pub open spec fn emitted_edges<'b>(&self, items: Seq<Slot<'b>>, t0: int, max: int) -> (
        Seq<char>,
        Seq<char>,
    ) {
        match first_flex(items, 0) {
            Some(f) => self.split_edges(items, f, t0, max),
            None => {
                let c = self.seg_count(items, t0, max);
                if c > 0 {
                    (bg_name(*items[0].1), bg_name(*items[c - 1].1))
                } else {
                    ("black"@, "black"@)
                }
            },
        }
    }

    /// A powerline line: start cap, chips chained by transitions (split
    /// around the flex slot, the gap filled with spaces), end cap, reset.
    /// The caps are always emitted: they are outside the width check that
    /// drops chips, though the start cap's width counts against the chips.
    /// Each cap takes the background of the chip beside it, the first or the
    /// last chip emitted (a chip dropped for width does not count), or black
    /// when no chip is emitted.
    pub open spec fn powerline_line<'b>(&self, items: Seq<Slot<'b>>, max: int) -> Seq<char> {
        let t0 = match self.config.powerline.start_cap {
            Some(c) => measured_width(c@) as int,
            None => 0,
        };
        let edges = self.emitted_edges(items, t0, max);
        let start = match self.config.powerline.start_cap {
            Some(c) => self.cap_seq(c@, edges.0),
            None => Seq::empty(),
        };
        let body = match first_flex(items, 0) {
            Some(f) => self.split_body(items, f, t0, max),
            None => self.seg_text(items, t0, max),
        };
        let end = match self.config.powerline.end_cap {
            Some(c) => self.cap_seq(c@, edges.1),
            None => Seq::empty(),
        };
        start + body + end + reset_seq(self.level())
    }

    // -----------------------------------------------------------------------
    // Whole render.

    /// The line text in the configured mode.
    pub open spec fn line_text<'b>(&self, items: Seq<Slot<'b>>, max: int) -> Seq<char> {
        if self.config.powerline.enabled {
            self.powerline_line(items, max)
        } else {
            self.plain_line(items, max)
        }
    }

    /// The visible slots of configured line `l`.
    pub open spec fn line_items<'b>(&self, outputs: Seq<Vec<WidgetOutput>>, l: int) -> Seq<
        Slot<'b>,
    > {
        visible_slots(
            if l < outputs.len() {
                outputs[l]@
            } else {
                Seq::empty()
            },
            self.config.lines@[l]@,
            self.config.lines@[l]@.len(),
        )
    }

    /// Lines assembled from the first `k` configured lines; a line with no
    /// visible widget yields nothing.
    pub open spec fn assembled(&self, outputs: Seq<Vec<WidgetOutput>>, max: int, k: nat) -> Seq<
        Seq<char>,
    >
        decreases k,
    {
        if k == 0 {
            Seq::empty()
        } else {
            let r = self.assembled(outputs, max, (k - 1) as nat);
            let items = self.line_items(outputs, k - 1);
            if items.len() > 0 {
                r.push(self.line_text(items, max))
            } else {
                r
            }
        }
    }

    /// The lines a render produces: the assembled lines, aligned when
    /// powerline auto-align is on and there is more than one.
    pub open spec fn rendered(&self, outputs: Seq<Vec<WidgetOutput>>, columns: Option<u16>) -> Seq<
        Seq<char>,
    > {
        let lines = self.assembled(
            outputs,
            width_for_mode(columns, self.config.flex_mode@) as int,
            self.config.lines@.len(),
        );
        if self.config.powerline.enabled && self.config.powerline.auto_align && lines.len() > 1 {
            aligned(lines)
        } else {
            lines
        }
    }


    /// `outs` are the outputs of configured line `l`'s widgets.
    pub open spec fn line_outputs(&self, data: SessionData, l: int, outs: Seq<WidgetOutput>) -> bool {
        outs.len() == self.config.lines@[l]@.len() && forall|j: int|
            0 <= j < outs.len() ==> slot_output(data, self.config.lines@[l]@[j], #[trigger] outs[j])
    }

    /// `outputs` hold, line by line and slot by slot, what each widget renders.
    pub open spec fn session_outputs(&self, data: SessionData, outputs: Seq<Vec<WidgetOutput>>) -> bool {
        outputs.len() == self.config.lines@.len() && forall|l: int|
            0 <= l < outputs.len() ==> self.line_outputs(data, l, #[trigger] outputs[l]@)
    }


    // -----------------------------------------------------------------------
    // Executable parts.

    pub fn new(config: &'a Config, renderer: &'a Renderer) -> (r: Self)
        ensures
            r.config == config,
            r.renderer == renderer,
            (r.theme.pairs(), r.theme.name@) == crate::theme::theme_for(config.theme@),
    {
        let theme = Theme::get(config.theme.as_str());
        LayoutEngine { config, renderer, theme }
    }

    /// The foreground color string for a widget, by priority.
    pub fn resolve_fg_color(&self, wc: &WidgetConfig, output: &WidgetOutput) -> (r: Option<
        String,
    >)
        ensures
            opt_seq(r) == fg_choice(self.theme.pairs(), *wc, *output),
    {
        if let Some(color) = &wc.color {
            return Some(color.clone());
        }
        if let Some(hint) = &output.color_hint {
            return Some(hint.clone());
        }
        if let Some(theme_color) = self.theme.role_for_widget(wc.widget_type.as_str()) {
            return Some(String::from_str(theme_color));
        }
        None
    }

    fn push_fg_and_bold(&self, styled: &mut String, wc: &WidgetConfig, output: &WidgetOutput)
        ensures
            final(styled)@ == old(styled)@ + self.fg_part(*wc, *output) + self.bold_part(*wc),
    {
        if let Some(fg) = self.resolve_fg_color(wc, output) {
            let spec = Renderer::parse_color(fg.as_str());
            let code = self.renderer.fg(&spec);
            styled.append(code.as_str());
        }
        let bold = match wc.bold {
            Some(b) => b,
            None => self.config.global_bold,
        };
        if bold {
            styled.append(self.renderer.bold());
        } else {
            assert(styled@ + Seq::<char>::empty() == styled@);
        }
        assert(final(styled)@ == old(styled)@ + self.fg_part(*wc, *output) + self.bold_part(*wc));
    }

    /// `text` with the slot's standard styling.
    pub fn apply_style(&self, text: &str, wc: &WidgetConfig, output: &WidgetOutput) -> (r: String)
        ensures
            r@ == self.styled(text@, *wc, *output),
    {
        let mut styled = String::new();
        if let Some(bg) = &wc.background_color {
            let spec = Renderer::parse_color(bg.as_str());
            let code = self.renderer.bg(&spec);
            styled.append(code.as_str());
        }
        self.push_fg_and_bold(&mut styled, wc, output);
        styled.append(text);
        styled.append(self.renderer.reset());
        assert(styled@ =~= self.styled(text@, *wc, *output));
        styled
    }

    /// A powerline chip: `text` padded inside the chip's colors.
    pub fn apply_powerline_style(
        &self,
        text: &str,
        wc: &WidgetConfig,
        bg_spec: &ColorSpec,
        output: &WidgetOutput,
    ) -> (r: String)
        ensures
            r@ == self.chip(text@, *wc, bg_spec@, *output),
    {
        let padding = self.padding(wc);
        let mut styled = self.renderer.bg(bg_spec);
        self.push_fg_and_bold(&mut styled, wc, output);
        styled.append(padding);
        styled.append(text);
        styled.append(padding);
        styled.append(self.renderer.reset());
        assert(styled@ =~= self.chip(text@, *wc, bg_spec@, *output));
        styled
    }

    fn padding<'c>(&'c self, wc: &'c WidgetConfig) -> (r: &'c str)
        ensures
            r@ == self.padding_of(*wc),
    {
        match &wc.padding {
            Some(p) => p.as_str(),
            None => self.config.default_padding.as_str(),
        }
    }

    /// The standard assembly: widgets in order, each after its separator,
    /// until the first that would overflow `max_width`.
    fn assemble_standard(&self, widgets: &[Slot<'_>], max_width: usize) -> (r: String)
        ensures
            r@ == self.standard_line(widgets@, max_width as int),
    {
        let ghost items = widgets@;
        let ghost sep_w = self.sep_width();
        let separator = self.config.default_separator.as_str();
        let sep_width = display_width(separator) as u128;
        let max = max_width as u128;
        let n = widgets.len();
        let mut out = String::new();
        let mut total: u128 = 0;
        let mut i: usize = 0;
        while i < n
            invariant
                n == items.len(),
                items == widgets@,
                sep_w == sep_width,
                sep_width <= usize::MAX,
                separator@ == self.config.default_separator@,
                max == max_width,
                i <= n,
                total == self.run_total(items, sep_w, 0, i as nat),
                total <= max + 2 * (usize::MAX as int),
                forall|j: nat| j < i ==> self.run_fits(items, sep_w, 0, max as int, j),
                out@ == self.std_pieces(items, i as nat),
            ensures
                i == n || !self.run_fits(items, sep_w, 0, max as int, i as nat),
            decreases n - i,
        {
            let (output, wc) = widgets[i];
            let need_separator = i > 0 && !widgets[i - 1].1.merge_next;
            let sep_here: u128 = if need_separator {
                sep_width
            } else {
                0
            };
            if total + sep_here + output.display_width as u128 > max {
                break;
            }
            assert(self.run_fits(items, sep_w, 0, max as int, i as nat));
            let ghost before = out@;
            let ghost sep_part = if sep_due(items, i as int) {
                self.config.default_separator@
            } else {
                Seq::<char>::empty()
            };
            assert(need_separator == sep_due(items, i as int));
            if need_separator {
                out.append(separator);
            } else {
                assert(out@ + Seq::<char>::empty() =~= out@);
            }
            assert(out@ =~= before + sep_part);
            let padding = self.padding(wc);
            let pad_width = display_width(padding) as u128;
            let styled = self.apply_style(output.text.as_str(), wc, output);
            out.append(padding);
            out.append(styled.as_str());
            out.append(padding);
            total = total + sep_here + output.display_width as u128 + 2 * pad_width;
            assert(out@ =~= before + self.std_piece(items, i as int));
            i = i + 1;
            assert(out@ =~= self.std_pieces(items, i as nat));
        }
        proof {
            self.lemma_run_count_skip(items, sep_w, 0, max as int, 0, i as nat);
        }
        out.append(self.renderer.reset());
        out
    }
    /// The flex assembly: every widget, with the flex slot filled to take up
    /// the columns that the others leave.
    pub fn assemble_line_with_flex(&self, widgets: &[Slot<'_>], max_width: usize) -> (r: String)
        ensures
            r@ == self.flex_line(widgets@, max_width as int),
    {
        let ghost items = widgets@;
        let separator = self.config.default_separator.as_str();
        let sep_width = display_width(separator) as u128;
        let n = widgets.len();
        let mut fixed: u128 = 0;
        let mut i: usize = 0;
        while i < n
            invariant
                n == items.len(),
                items == widgets@,
                self.sep_width() == sep_width,
                sep_width <= usize::MAX,
                i <= n,
                fixed == (if self.fixed_width(items, i as nat) <= u128::MAX {
                    self.fixed_width(items, i as nat)
                } else {
                    u128::MAX as int
                }),
                forall|j: nat| j <= i ==> self.fixed_width(items, j) >= 0,
            decreases n - i,
        {
            let (output, wc) = widgets[i];
            if !str_eq(wc.widget_type.as_str(), "flex-separator") {
                let need_separator = i > 0 && !widgets[i - 1].1.merge_next && !str_eq(
                    widgets[i - 1].1.widget_type.as_str(),
                    "flex-separator",
                );
                let sep_here: u128 = if need_separator {
                    sep_width
                } else {
                    0
                };
                let pad_width = display_width(self.padding(wc)) as u128;
                fixed = fixed.saturating_add(sep_here + output.display_width as u128 + 2 * pad_width);
            }
            i = i + 1;
            assert forall|j: nat| j <= i implies self.fixed_width(items, j) >= 0 by {
                if j == i {
                    assert(self.fixed_width(items, (j - 1) as nat) >= 0);
                }
            }
        }
        assert(items.len() == n);
        let flex_width: usize = if fixed >= max_width as u128 {
            0
        } else {
            (max_width as u128 - fixed) as usize
        };
        assert(flex_width == self.fill_width(items, max_width as int));
        let mut out = String::new();
        let mut i: usize = 0;
        while i < n
            invariant
                n == items.len(),
                items == widgets@,
                separator@ == self.config.default_separator@,
                flex_width == self.fill_width(items, max_width as int),
                i <= n,
                out@ == self.flex_pieces(items, i as nat, flex_width as nat),
            decreases n - i,
        {
            let (output, wc) = widgets[i];
            let ghost before = out@;
            if str_eq(wc.widget_type.as_str(), "flex-separator") {
                let fill = repeat_str(output.text.as_str(), flex_width);
                let styled = self.apply_style(fill.as_str(), wc, output);
                out.append(styled.as_str());
            } else {
                let need_separator = i > 0 && !widgets[i - 1].1.merge_next && !str_eq(
                    widgets[i - 1].1.widget_type.as_str(),
                    "flex-separator",
                );
                if need_separator {
                    out.append(separator);
                } else {
                    assert(out@ + Seq::<char>::empty() =~= out@);
                }
                let padding = self.padding(wc);
                let styled = self.apply_style(output.text.as_str(), wc, output);
                out.append(padding);
                out.append(styled.as_str());
                out.append(padding);
            }
            assert(out@ =~= before + self.flex_piece(items, i as int, flex_width as nat));
            i = i + 1;
        }
        out.append(self.renderer.reset());
        out
    }

    fn has_flex_exec(widgets: &[Slot<'_>]) -> (r: Option<usize>)
        ensures
            match r {
                Some(k) => k < widgets@.len() && is_flex(*widgets@[k as int].1) && forall|j: int|
                    0 <= j < k ==> !is_flex(*#[trigger] widgets@[j].1),
                None => !Self::has_flex(widgets@),
            },
    {
        let n = widgets.len();
        let mut i: usize = 0;
        while i < n
            invariant
                n == widgets@.len(),
                i <= n,
                forall|j: int| 0 <= j < i ==> !is_flex(*#[trigger] widgets@[j].1),
            decreases n - i,
        {
            if str_eq(widgets[i].1.widget_type.as_str(), "flex-separator") {
                return Some(i);
            }
            i = i + 1;
        }
        None
    }

    /// A line in standard mode: the flex assembly when the line has a flex
    /// slot, else the standard assembly.
    pub fn assemble_line(&self, widgets: &[Slot<'_>], max_width: usize) -> (r: String)
        ensures
            r@ == self.plain_line(widgets@, max_width as int),
    {
        match Self::has_flex_exec(widgets) {
            Some(_) => self.assemble_line_with_flex(widgets, max_width),
            None => self.assemble_standard(widgets, max_width),
        }
    }
    fn bg_name_exec<'c>(wc: &'c WidgetConfig) -> (r: &'c str)
        ensures
            r@ == bg_name(*wc),
    {
        match &wc.background_color {
            Some(b) => b.as_str(),
            None => "black",
        }
    }

    fn without_flex<'b>(widgets: &[Slot<'b>], from: usize) -> (r: Vec<Slot<'b>>)
        requires
            from <= widgets@.len(),
        ensures
            r@ == drop_flex(widgets@.subrange(from as int, widgets@.len() as int)),
    {
        let n = widgets.len();
        let mut r: Vec<Slot<'b>> = Vec::new();
        let mut i: usize = from;
        while i < n
            invariant
                n == widgets@.len(),
                from <= i <= n,
                r@ == drop_flex(widgets@.subrange(from as int, i as int)),
            decreases n - i,
        {
            let ghost prev = widgets@.subrange(from as int, i as int);
            assert(widgets@.subrange(from as int, i + 1).drop_last() == prev);
            if !str_eq(widgets[i].1.widget_type.as_str(), "flex-separator") {
                r.push(widgets[i]);
            }
            i = i + 1;
        }
        r
    }

    fn cap(&self, out: &mut String, cap: &str, bg: &str)
        ensures
            final(out)@ == old(out)@ + self.cap_seq(cap@, bg@),
    {
        let spec = Renderer::parse_color(bg);
        let code = self.renderer.fg(&spec);
        out.append(code.as_str());
        out.append(cap);
        out.append(self.renderer.reset());
        assert(final(out)@ =~= old(out)@ + self.cap_seq(cap@, bg@));
    }

    /// Appends the chips of one powerline segment that fit, each after its
    /// transition glyph, and advances `total` by their width.
    #[verifier::rlimit(40)]
    fn render_powerline_segment(
        &self,
        widgets: &[Slot<'_>],
        out: &mut String,
        total: &mut u128,
        max_width: usize,
    ) -> (count: usize)
        requires
            *old(total) <= 64 * (usize::MAX as int),
        ensures
            count == self.seg_count(widgets@, *old(total) as int, max_width as int),
            count <= widgets@.len(),
            final(out)@ == old(out)@ + self.seg_text(widgets@, *old(total) as int, max_width as int),
            *final(total) == self.seg_end(widgets@, *old(total) as int, max_width as int),
            *final(total) <= (if *old(total) > 3 * (usize::MAX as int) {
                *old(total) as int
            } else {
                3 * (usize::MAX as int)
            }),
    {
        let ghost items = widgets@;
        let ghost t0 = *old(total) as int;
        let ghost bound = if t0 > 3 * (usize::MAX as int) {
            t0
        } else {
            3 * (usize::MAX as int)
        };
        let ghost start = out@;
        let pl_sep = self.config.powerline.separator.as_str();
        let sep_width = display_width(pl_sep) as u128;
        let max = max_width as u128;
        let n = widgets.len();
        let mut i: usize = 0;
        while i < n
            invariant
                n == items.len(),
                items == widgets@,
                self.pl_sep_width() == sep_width,
                sep_width <= usize::MAX,
                pl_sep@ == self.config.powerline.separator@,
                max == max_width,
                i <= n,
                *total == self.run_total(items, sep_width as int, t0, i as nat),
                t0 <= 64 * (usize::MAX as int),
                bound == (if t0 > 3 * (usize::MAX as int) {
                    t0
                } else {
                    3 * (usize::MAX as int)
                }),
                *total <= bound,
                forall|j: nat| j < i ==> self.run_fits(items, sep_width as int, t0, max as int, j),
                out@ == start + self.seg_pieces(items, i as nat),
            ensures
                i == n || !self.run_fits(items, sep_width as int, t0, max as int, i as nat),
            decreases n - i,
        {
            let (output, wc) = widgets[i];
            let this_bg = Renderer::parse_color(Self::bg_name_exec(wc));
            let need_separator = i > 0 && !widgets[i - 1].1.merge_next;
            let sep_here: u128 = if need_separator {
                sep_width
            } else {
                0
            };
            if *total + sep_here + output.display_width as u128 > max {
                break;
            }
            let ghost before = out@;
            if need_separator {
                let prev_bg = Renderer::parse_color(Self::bg_name_exec(widgets[i - 1].1));
                let fg = self.renderer.fg(&prev_bg);
                let bg = self.renderer.bg(&this_bg);
                out.append(fg.as_str());
                out.append(bg.as_str());
                out.append(pl_sep);
                out.append(self.renderer.reset());
            } else {
                assert(out@ + Seq::<char>::empty() =~= out@);
            }
            let pad_width = display_width(self.padding(wc)) as u128;
            let styled = self.apply_powerline_style(output.text.as_str(), wc, &this_bg, output);
            out.append(styled.as_str());
            *total = *total + sep_here + output.display_width as u128 + 2 * pad_width;
            assert(out@ =~= before + self.seg_piece(items, i as int));
            i = i + 1;
            assert(out@ =~= start + self.seg_pieces(items, i as nat));
        }
        proof {
            self.lemma_run_count_skip(items, sep_width as int, t0, max as int, 0, i as nat);
        }
        i
    }

    fn left_group<'b>(widgets: &[Slot<'b>], fidx: usize) -> (r: Vec<Slot<'b>>)
        requires
            fidx <= widgets@.len(),
        ensures
            r@ == widgets@.subrange(0, fidx as int),
    {
        let mut left: Vec<Slot<'b>> = Vec::new();
        let mut i: usize = 0;
        while i < fidx
            invariant
                fidx <= widgets@.len(),
                i <= fidx,
                left@ == widgets@.subrange(0, i as int),
            decreases fidx - i,
        {
            left.push(widgets[i]);
            i = i + 1;
            assert(left@ =~= widgets@.subrange(0, i as int));
        }
        left
    }

    /// The width of a right-hand group, saturating at `u128::MAX`.
    fn right_span_exec(&self, right: &[Slot<'_>]) -> (r: u128)
        ensures
            self.right_span(right@) >= 0,
            r == (if self.right_span(right@) <= u128::MAX {
                self.right_span(right@)
            } else {
                u128::MAX as int
            }),
    {
        let ghost rights = right@;
        let sep_width = display_width(self.config.powerline.separator.as_str()) as u128;
        let mut right_width: u128 = 0;
        let mut k: usize = 0;
        while k < right.len()
            invariant
                right@ == rights,
                self.pl_sep_width() == sep_width,
                sep_width <= usize::MAX,
                k <= rights.len(),
                right_width == (if self.right_width(rights, k as nat) <= u128::MAX {
                    self.right_width(rights, k as nat)
                } else {
                    u128::MAX as int
                }),
                forall|j: nat| j <= k ==> self.right_width(rights, j) >= 0,
            decreases rights.len() - k,
        {
            let (output, wc) = right[k];
            let sep_here: u128 = if k > 0 {
                sep_width
            } else {
                0
            };
            let pad_width = display_width(self.padding(wc)) as u128;
            right_width = right_width.saturating_add(
                sep_here + output.display_width as u128 + 2 * pad_width,
            );
            k = k + 1;
            assert forall|j: nat| j <= k implies self.right_width(rights, j) >= 0 by {
                if j == k {
                    assert(self.right_width(rights, (j - 1) as nat) >= 0);
                }
            }
        }
        if right.len() > 0 {
            right_width = right_width.saturating_add(sep_width);
        }
        right_width
    }

    /// The left group of a split powerline line and its closing glyph.
    fn emit_left(&self, left: &[Slot<'_>], out: &mut String, total: &mut u128, max_width: usize) -> (count: usize)
        requires
            *old(total) <= usize::MAX,
        ensures
            count == self.seg_count(left@, *old(total) as int, max_width as int),
            count <= left@.len(),
            final(out)@ == old(out)@ + self.seg_text(left@, *old(total) as int, max_width as int)
                + self.closing(left@),
            *final(total) == self.after_left(left@, *old(total) as int, max_width as int),
            *final(total) <= 4 * (usize::MAX as int),
    {
        let ghost t0 = *old(total) as int;
        let ghost head = out@;
        let count = self.render_powerline_segment(left, out, total, max_width);
        let ghost after_text = out@;
        if left.len() > 0 {
            let last_bg = Renderer::parse_color(Self::bg_name_exec(left[left.len() - 1].1));
            let fg = self.renderer.fg(&last_bg);
            out.append(fg.as_str());
            out.append(self.config.powerline.separator.as_str());
            out.append(self.renderer.reset());
            let sep_width = display_width(self.config.powerline.separator.as_str()) as u128;
            *total = *total + sep_width;
            assert(out@ =~= after_text + self.closing(left@));
        } else {
            assert(out@ =~= after_text + self.closing(left@));
        }
        assert(out@ =~= head + self.seg_text(left@, t0, max_width as int) + self.closing(left@));
        count
    }

    /// The spaces up to the right group of a split powerline line, then the
    /// right group behind its entry glyph.
    fn emit_right(&self, right: &[Slot<'_>], out: &mut String, total: &mut u128, max_width: usize) -> (count: usize)
        requires
            *old(total) <= 4 * (usize::MAX as int),
        ensures
            count == self.seg_count(
                right@,
                *old(total) + self.gap(right@, *old(total) as int, max_width as int) + 1,
                max_width as int,
            ),
            count <= right@.len(),
            final(out)@ == old(out)@ + repeat_seq(
                " "@,
                self.gap(right@, *old(total) as int, max_width as int),
            ) + self.right_part(
                right@,
                *old(total) + self.gap(right@, *old(total) as int, max_width as int),
                max_width as int,
            ),
    {
        let ghost t2 = *old(total) as int;
        let ghost max = max_width as int;
        let ghost head = out@;
        let span = self.right_span_exec(right);
        let used = (*total).saturating_add(span);
        let fill: usize = if used >= max_width as u128 {
            0
        } else {
            (max_width as u128 - used) as usize
        };
        assert(fill == self.gap(right@, t2, max));
        let spaces = repeat_str(" ", fill);
        out.append(spaces.as_str());
        *total = *total + fill as u128;
        let ghost after_fill = out@;
        let ghost t3 = *total as int;
        if right.len() > 0 {
            let first_bg = Renderer::parse_color(Self::bg_name_exec(right[0].1));
            let fg = self.renderer.fg(&first_bg);
            out.append(fg.as_str());
            out.append("\u{E0B2}");
            out.append(self.renderer.reset());
            *total = *total + 1;
            let count = self.render_powerline_segment(right, out, total, max_width);
            assert(out@ =~= after_fill + self.right_part(right@, t3, max));
            count
        } else {
            assert(out@ =~= after_fill + self.right_part(right@, t3, max));
            0
        }
    }

    /// The chips of a powerline line around its flex slot at `fidx`: left
    /// group, closing glyph, spaces up to the right group, entry glyph, right group.
    fn assemble_split(
        &self,
        widgets: &[Slot<'_>],
        fidx: usize,
        out: &mut String,
        total: &mut u128,
        max_width: usize,
    ) -> (edges: (String, String))
        requires
            fidx < widgets@.len(),
            *old(total) <= usize::MAX,
        ensures
            (edges.0@, edges.1@) == self.split_edges(
                widgets@,
                fidx as int,
                *old(total) as int,
                max_width as int,
            ),
            final(out)@ == old(out)@ + self.split_body(
                widgets@,
                fidx as int,
                *old(total) as int,
                max_width as int,
            ),
    {
        let ghost items = widgets@;
        let ghost t0 = *old(total) as int;
        let ghost head = out@;
        let n = widgets.len();
        let left = Self::left_group(widgets, fidx);
        let right = Self::without_flex(widgets, fidx + 1);
        let cl = self.emit_left(left.as_slice(), out, total, max_width);
        let cr = self.emit_right(right.as_slice(), out, total, max_width);
        assert(out@ =~= head + self.split_body(items, fidx as int, t0, max_width as int));
        let first = if cl > 0 {
            Self::bg_name_exec(left[0].1)
        } else if cr > 0 {
            Self::bg_name_exec(right[0].1)
        } else {
            "black"
        };
        let last = if cr > 0 {
            Self::bg_name_exec(right[cr - 1].1)
        } else if cl > 0 {
            Self::bg_name_exec(left[cl - 1].1)
        } else {
            "black"
        };
        (String::from_str(first), String::from_str(last))
    }

    /// The powerline assembly of one line.
    pub fn assemble_powerline_line(&self, widgets: &[Slot<'_>], max_width: usize) -> (r: String)
        ensures
            r@ == self.powerline_line(widgets@, max_width as int),
    {
        let ghost items = widgets@;
        let ghost max = max_width as int;
        let start_width: u128 = match &self.config.powerline.start_cap {
            Some(cap) => display_width(cap.as_str()) as u128,
            None => 0,
        };
        let ghost t0 = start_width as int;
        let mut body = String::new();
        let mut total: u128 = start_width;
        let edges = match Self::first_flex_exec(widgets) {
            Some(fidx) => self.assemble_split(widgets, fidx, &mut body, &mut total, max_width),
            None => {
                let count = self.render_powerline_segment(widgets, &mut body, &mut total, max_width);
                assert(body@ =~= self.seg_text(items, t0, max));
                if count > 0 {
                    (
                        String::from_str(Self::bg_name_exec(widgets[0].1)),
                        String::from_str(Self::bg_name_exec(widgets[count - 1].1)),
                    )
                } else {
                    (String::from_str("black"), String::from_str("black"))
                }
            },
        };
        assert((edges.0@, edges.1@) == self.emitted_edges(items, t0, max));
        let mut out = String::new();
        if let Some(cap) = &self.config.powerline.start_cap {
            self.cap(&mut out, cap.as_str(), edges.0.as_str());
        }
        out.append(body.as_str());
        if let Some(cap) = &self.config.powerline.end_cap {
            self.cap(&mut out, cap.as_str(), edges.1.as_str());
        }
        out.append(self.renderer.reset());
        assert(out@ =~= self.powerline_line(items, max));
        out
    }

    fn first_flex_exec(widgets: &[Slot<'_>]) -> (r: Option<usize>)
        ensures
            match r {
                Some(k) => first_flex(widgets@, 0) == Some(k as int) && k < widgets@.len(),
                None => first_flex(widgets@, 0) is None,
            },
    {
        let n = widgets.len();
        let mut i: usize = 0;
        while i < n
            invariant
                n == widgets@.len(),
                i <= n,
                forall|j: int| 0 <= j < i ==> !is_flex(*#[trigger] widgets@[j].1),
            decreases n - i,
        {
            if str_eq(widgets[i].1.widget_type.as_str(), "flex-separator") {
                proof {
                    lemma_first_flex_skip(widgets@, 0, i as nat);
                }
                return Some(i);
            }
            i = i + 1;
        }
        proof {
            lemma_first_flex_skip(widgets@, 0, n as nat);
        }
        None
    }
    /// The working width: the terminal's columns (120 when unknown) under
    /// the flex mode `full`, `compact` or (default) `full-minus-40`.
    pub fn terminal_width(config: &Config, columns: Option<u16>) -> (r: usize)
        ensures
            r == width_for_mode(columns, config.flex_mode@),
    {
        let width: usize = match columns {
            Some(c) => c as usize,
            None => 120,
        };
        let mode = config.flex_mode.as_str();
        if str_eq(mode, "full") {
            width
        } else if str_eq(mode, "compact") {
            60
        } else if width >= 40 {
            width - 40
        } else {
            0
        }
    }

    /// Right-pads every line with spaces to the widest line's visible width.
    pub fn align_lines(lines: &Vec<String>) -> (r: Vec<String>)
        ensures
            r@.map_values(|s: String| s@) == aligned(lines@.map_values(|s: String| s@)),
    {
        let ghost views = lines@.map_values(|s: String| s@);
        let n = lines.len();
        let mut widest: usize = 0;
        let mut i: usize = 0;
        while i < n
            invariant
                n == lines@.len() == views.len(),
                views == lines@.map_values(|s: String| s@),
                i <= n,
                widest == max_line_width(views, i as nat),
            decreases n - i,
        {
            let w = visible_width(lines[i].as_str());
            assert(views[i as int] == lines@[i as int]@);
            if w > widest {
                widest = w;
            }
            i = i + 1;
        }
        proof {
            lemma_max_line_width(views, n as nat);
        }
        let mut r: Vec<String> = Vec::new();
        let mut i: usize = 0;
        while i < n
            invariant
                n == lines@.len() == views.len(),
                views == lines@.map_values(|s: String| s@),
                widest == max_line_width(views, n as nat),
                forall|k: int| 0 <= k < n ==> line_width(#[trigger] views[k]) <= widest,
                i <= n,
                r@.len() == i,
                forall|k: int|
                    0 <= k < i ==> #[trigger] r@[k]@ == aligned(views)[k],
            decreases n - i,
        {
            let w = visible_width(lines[i].as_str());
            assert(views[i as int] == lines@[i as int]@);
            let mut line = lines[i].clone();
            let spaces = repeat_str(" ", widest - w);
            line.append(spaces.as_str());
            r.push(line);
            i = i + 1;
        }
        assert(r@.map_values(|s: String| s@) =~= aligned(views));
        r
    }

    fn line_slots<'b>(
        &self,
        outputs: &'b Vec<Vec<WidgetOutput>>,
        cfgs: &'b Vec<WidgetConfig>,
        l: usize,
    ) -> (r: Vec<Slot<'b>>)
        ensures
            r@ == visible_slots(
                if l < outputs@.len() {
                    outputs@[l as int]@
                } else {
                    Seq::empty()
                },
                cfgs@,
                cfgs@.len(),
            ),
    {
        let ghost outs = if l < outputs@.len() {
            outputs@[l as int]@
        } else {
            Seq::<WidgetOutput>::empty()
        };
        let mut slots: Vec<Slot<'b>> = Vec::new();
        let mut j: usize = 0;
        while j < cfgs.len()
            invariant
                j <= cfgs@.len(),
                outs == (if l < outputs@.len() {
                    outputs@[l as int]@
                } else {
                    Seq::empty()
                }),
                slots@ == visible_slots(outs, cfgs@, j as nat),
            decreases cfgs@.len() - j,
        {
            if l < outputs.len() && j < outputs[l].len() && outputs[l][j].visible {
                slots.push((&outputs[l][j], &cfgs[j]));
            }
            j = j + 1;
        }
        slots
    }

    /// Renders every configured line from its widgets' outputs
    /// (`outputs[l][j]` belongs to slot `j` of line `l`; a missing output
    /// counts as invisible). `columns` is the terminal's width, if known.
    pub fn render(&self, outputs: &Vec<Vec<WidgetOutput>>, columns: Option<u16>) -> (r: Vec<
        String,
    >)
        ensures
            r@.map_values(|s: String| s@) == self.rendered(outputs@, columns),
    {
        let max_width = Self::terminal_width(self.config, columns);
        let ghost max = max_width as int;
        let n = self.config.lines.len();
        let mut lines: Vec<String> = Vec::new();
        let mut l: usize = 0;
        while l < n
            invariant
                n == self.config.lines@.len(),
                max == max_width,
                l <= n,
                lines@.map_values(|s: String| s@) == self.assembled(outputs@, max, l as nat),
            decreases n - l,
        {
            let slots = self.line_slots(outputs, &self.config.lines[l], l);
            let ghost before = lines@.map_values(|s: String| s@);
            if slots.len() > 0 {
                let line = if self.config.powerline.enabled {
                    self.assemble_powerline_line(slots.as_slice(), max_width)
                } else {
                    self.assemble_line(slots.as_slice(), max_width)
                };
                lines.push(line);
                assert(lines@.map_values(|s: String| s@) =~= before.push(
                    self.line_text(slots@, max),
                ));
            }
            l = l + 1;
        }
        if self.config.powerline.enabled && self.config.powerline.auto_align && lines.len() > 1 {
            Self::align_lines(&lines)
        } else {
            lines
        }
    }
    /// Renders every configured line from the session data: each slot's
    /// widget is asked for its output (a slot whose type names no widget
    /// shows nothing), then the lines are assembled as [`Self::render`] does.
    pub fn render_session(&self, data: &SessionData, columns: Option<u16>) -> (r: Vec<String>)
        ensures
            exists|outputs: Seq<Vec<WidgetOutput>>|
                self.session_outputs(*data, outputs) && r@.map_values(|s: String| s@)
                    == self.rendered(outputs, columns),
    {
        let n = self.config.lines.len();
        let mut outputs: Vec<Vec<WidgetOutput>> = Vec::new();
        let mut l: usize = 0;
        while l < n
            invariant
                n == self.config.lines@.len(),
                l <= n,
                outputs@.len() == l,
                forall|k: int| 0 <= k < l ==> self.line_outputs(*data, k, #[trigger] outputs@[k]@),
            decreases n - l,
        {
            let slots = &self.config.lines[l];
            let mut line: Vec<WidgetOutput> = Vec::new();
            let mut j: usize = 0;
            while j < slots.len()
                invariant
                    slots@ == self.config.lines@[l as int]@,
                    j <= slots@.len(),
                    line@.len() == j,
                    forall|k: int|
                        0 <= k < j ==> slot_output(*data, slots@[k], #[trigger] line@[k]),
                decreases slots@.len() - j,
            {
                let wc = &slots[j];
                let o = match render_widget(wc.widget_type.as_str(), data, wc) {
                    Some(o) => o,
                    None => WidgetOutput {
                        text: String::new(),
                        display_width: 0,
                        priority: 0,
                        visible: false,
                        color_hint: None,
                    },
                };
                line.push(o);
                j = j + 1;
            }
            outputs.push(line);
            l = l + 1;
        }
        let r = self.render(&outputs, columns);
        assert(self.session_outputs(*data, outputs@));
        r
    }
}

} // verus!

//! Color renderer: maps a color specification and a terminal color depth to
//! the escape sequences that select it.
use vstd::prelude::*;

use crate::text::{contains_seq, decimal, push_decimal, str_contains, str_eq};

verus! {

/// The color richness a terminal supports.
#[derive(Debug, Clone, Copy, PartialEq, Eq, Structural)]
pub enum ColorLevel {
    NoColor,
    Basic16,
    Color256,
    TrueColor,
}

/// A parsed color: a named 4-bit color, an 8-bit palette index or a 24-bit RGB triple.
#[derive(Debug, Clone)]
pub enum ColorSpec {
    Named(String),
    Ansi256(u8),
    Rgb(u8, u8, u8),
}

/// The mathematical value of a [`ColorSpec`].
pub enum ColorValue {
    Named(Seq<char>),
    Ansi256(u8),
    Rgb(u8, u8, u8),
}

impl View for ColorSpec {
    type V = ColorValue;

    open spec fn view(&self) -> ColorValue {
        match self {
            ColorSpec::Named(n) => ColorValue::Named(n@),
            ColorSpec::Ansi256(i) => ColorValue::Ansi256(*i),
            ColorSpec::Rgb(r, g, b) => ColorValue::Rgb(*r, *g, *b),
        }
    }
}

/// Emits escape sequences for one color depth.
pub struct Renderer {
    pub color_level: ColorLevel,
}

// ---------------------------------------------------------------------------
// Parsing color names.

/// The canonical name of a recognised color name (snake-case bright names accepted).
pub open spec fn canonical_name(s: Seq<char>) -> Option<Seq<char>> {
    if s == "black"@ {
        Some("black"@)
    } else if s == "red"@ {
        Some("red"@)
    } else if s == "green"@ {
        Some("green"@)
    } else if s == "yellow"@ {
        Some("yellow"@)
    } else if s == "blue"@ {
        Some("blue"@)
    } else if s == "magenta"@ {
        Some("magenta"@)
    } else if s == "cyan"@ {
        Some("cyan"@)
    } else if s == "white"@ {
        Some("white"@)
    } else if s == "brightBlack"@ || s == "bright_black"@ {
        Some("brightBlack"@)
    } else if s == "brightRed"@ || s == "bright_red"@ {
        Some("brightRed"@)
    } else if s == "brightGreen"@ || s == "bright_green"@ {
        Some("brightGreen"@)
    } else if s == "brightYellow"@ || s == "bright_yellow"@ {
        Some("brightYellow"@)
    } else if s == "brightBlue"@ || s == "bright_blue"@ {
        Some("brightBlue"@)
    } else if s == "brightMagenta"@ || s == "bright_magenta"@ {
        Some("brightMagenta"@)
    } else if s == "brightCyan"@ || s == "bright_cyan"@ {
        Some("brightCyan"@)
    } else if s == "brightWhite"@ || s == "bright_white"@ {
        Some("brightWhite"@)
    } else {
        None
    }
}

pub open spec fn is_hex_digit(c: char) -> bool {
    ('0' <= c && c <= '9') || ('a' <= c && c <= 'f') || ('A' <= c && c <= 'F')
}

pub open spec fn hex_digit_value(c: char) -> nat {
    if '0' <= c && c <= '9' {
        (c as u32 - '0' as u32) as nat
    } else if 'a' <= c && c <= 'f' {
        (c as u32 - 'a' as u32 + 10) as nat
    } else {
        (c as u32 - 'A' as u32 + 10) as nat
    }
}

/// A byte written as two hexadecimal digits, most significant first.
pub open spec fn hex_pair_value(a: char, b: char) -> nat {
    16 * hex_digit_value(a) + hex_digit_value(b)
}

/// `#` followed by six hexadecimal digits.
pub open spec fn is_hex_literal(s: Seq<char>) -> bool {
    s.len() == 7 && s[0] == '#' && forall|i: int| 1 <= i < 7 ==> is_hex_digit(#[trigger] s[i])
}

pub open spec fn is_dec_digit(c: char) -> bool {
    '0' <= c && c <= '9'
}

/// The value of a run of decimal digits.
pub open spec fn digits_value(s: Seq<char>) -> nat
    decreases s.len(),
{
    if s.len() == 0 {
        0
    } else {
        digits_value(s.drop_last()) * 10 + (s.last() as u32 - '0' as u32) as nat
    }
}

/// `s` without one leading `+`.
pub open spec fn unsigned_part(s: Seq<char>) -> Seq<char> {
    if s.len() > 0 && s[0] == '+' {
        s.drop_first()
    } else {
        s
    }
}

pub open spec fn all_dec_digits(d: Seq<char>) -> bool {
    forall|i: int| 0 <= i < d.len() ==> is_dec_digit(#[trigger] d[i])
}

/// A byte written in decimal, as std's `str::parse::<u8>` reads it: an
/// optional `+`, then at least one digit, with a value below 256.
pub open spec fn parse_byte(s: Seq<char>) -> Option<u8> {
    let d = unsigned_part(s);
    if d.len() > 0 && all_dec_digits(d) && digits_value(d) < 256 {
        Some(digits_value(d) as u8)
    } else {
        None
    }
}

/// What a color string denotes; anything unrecognised is white.
pub open spec fn parse_color_value(s: Seq<char>) -> ColorValue {
    match canonical_name(s) {
        Some(n) => ColorValue::Named(n),
        None => if is_hex_literal(s) {
            ColorValue::Rgb(
                hex_pair_value(s[1], s[2]) as u8,
                hex_pair_value(s[3], s[4]) as u8,
                hex_pair_value(s[5], s[6]) as u8,
            )
        } else {
            match parse_byte(s) {
                Some(i) => ColorValue::Ansi256(i),
                None => ColorValue::Named("white"@),
            }
        },
    }
}

// ---------------------------------------------------------------------------
// Escape sequences.

/// The SGR code of a named foreground color; white when the name is unknown.
pub open spec fn named_fg_code(n: Seq<char>) -> Seq<char> {
    if n == "black"@ {
        "30"@
    } else if n == "red"@ {
        "31"@
    } else if n == "green"@ {
        "32"@
    } else if n == "yellow"@ {
        "33"@
    } else if n == "blue"@ {
        "34"@
    } else if n == "magenta"@ {
        "35"@
    } else if n == "cyan"@ {
        "36"@
    } else if n == "white"@ {
        "37"@
    } else if n == "brightBlack"@ {
        "90"@
    } else if n == "brightRed"@ {
        "91"@
    } else if n == "brightGreen"@ {
        "92"@
    } else if n == "brightYellow"@ {
        "93"@
    } else if n == "brightBlue"@ {
        "94"@
    } else if n == "brightMagenta"@ {
        "95"@
    } else if n == "brightCyan"@ {
        "96"@
    } else if n == "brightWhite"@ {
        "97"@
    } else {
        "37"@
    }
}

/// The SGR code of a named background color; black when the name is unknown.
pub open spec fn named_bg_code(n: Seq<char>) -> Seq<char> {
    if n == "black"@ {
        "40"@
    } else if n == "red"@ {
        "41"@
    } else if n == "green"@ {
        "42"@
    } else if n == "yellow"@ {
        "43"@
    } else if n == "blue"@ {
        "44"@
    } else if n == "magenta"@ {
        "45"@
    } else if n == "cyan"@ {
        "46"@
    } else if n == "white"@ {
        "47"@
    } else if n == "brightBlack"@ || n == "bgBrightBlack"@ {
        "100"@
    } else if n == "brightRed"@ || n == "bgBrightRed"@ {
        "101"@
    } else if n == "brightGreen"@ || n == "bgBrightGreen"@ {
        "102"@
    } else if n == "brightYellow"@ || n == "bgBrightYellow"@ {
        "103"@
    } else if n == "brightBlue"@ || n == "bgBrightBlue"@ {
        "104"@
    } else if n == "brightMagenta"@ || n == "bgBrightMagenta"@ {
        "105"@
    } else if n == "brightCyan"@ || n == "bgBrightCyan"@ {
        "106"@
    } else if n == "brightWhite"@ || n == "bgBrightWhite"@ {
        "107"@
    } else {
        "40"@
    }
}

pub open spec fn sgr(code: Seq<char>) -> Seq<char> {
    "\x1b["@ + code + "m"@
}

/// Selects palette entry `i`, as foreground or background.
pub open spec fn indexed_seq(i: nat, background: bool) -> Seq<char> {
    (if background {
        "\x1b[48;5;"@
    } else {
        "\x1b[38;5;"@
    }) + decimal(i) + "m"@
}

/// Selects a 24-bit color, as foreground or background.
pub open spec fn rgb_seq(r: u8, g: u8, b: u8, background: bool) -> Seq<char> {
    (if background {
        "\x1b[48;2;"@
    } else {
        "\x1b[38;2;"@
    }) + decimal(r as nat) + ";"@ + decimal(g as nat) + ";"@ + decimal(b as nat) + "m"@
}

pub open spec fn named_seq(n: Seq<char>, background: bool) -> Seq<char> {
    if background {
        sgr(named_bg_code(n))
    } else {
        sgr(named_fg_code(n))
    }
}

/// The nearest palette index: the 24-step gray ramp for exact grays, else
/// the 6x6x6 cube with each channel scaled from 0..255 to 0..5.
pub open spec fn rgb_to_256_spec(r: u8, g: u8, b: u8) -> nat {
    if r == g && g == b {
        if r < 8 {
            16
        } else if r > 248 {
            231
        } else {
            ((r - 8) * 24 / 247 + 232) as nat
        }
    } else {
        (16 + 36 * (r * 5 / 255) + 6 * (g * 5 / 255) + b * 5 / 255) as nat
    }
}

/// 16-color output: named colors only; palette and RGB colors fall back to
/// the default (white foreground, black background).
pub open spec fn basic_seq(c: ColorValue, background: bool) -> Seq<char> {
    match c {
        ColorValue::Named(n) => named_seq(n, background),
        _ => named_seq(Seq::empty(), background),
    }
}

/// 256-color output.
pub open spec fn palette_seq(c: ColorValue, background: bool) -> Seq<char> {
    match c {
        ColorValue::Named(n) => named_seq(n, background),
        ColorValue::Ansi256(i) => indexed_seq(i as nat, background),
        ColorValue::Rgb(r, g, b) => indexed_seq(rgb_to_256_spec(r, g, b), background),
    }
}

/// True-color output: RGB as 24-bit, everything else as in 256-color output.
pub open spec fn truecolor_seq(c: ColorValue, background: bool) -> Seq<char> {
    match c {
        ColorValue::Rgb(r, g, b) => rgb_seq(r, g, b, background),
        _ => palette_seq(c, background),
    }
}

/// The escape sequence that selects `c` at depth `level`.
pub open spec fn color_seq(level: ColorLevel, c: ColorValue, background: bool) -> Seq<char> {
    match level {
        ColorLevel::NoColor => Seq::empty(),
        ColorLevel::Basic16 => basic_seq(c, background),
        ColorLevel::Color256 => palette_seq(c, background),
        ColorLevel::TrueColor => truecolor_seq(c, background),
    }
}

pub open spec fn bold_seq(level: ColorLevel) -> Seq<char> {
    if level == ColorLevel::NoColor {
        Seq::empty()
    } else {
        "\x1b[1m"@
    }
}

pub open spec fn reset_seq(level: ColorLevel) -> Seq<char> {
    if level == ColorLevel::NoColor {
        Seq::empty()
    } else {
        "\x1b[0m"@
    }
}

pub open spec fn link_seq(level: ColorLevel, url: Seq<char>, text: Seq<char>) -> Seq<char> {
    if level == ColorLevel::NoColor {
        text
    } else {
        "\x1b]8;;"@ + url + "\x07"@ + text + "\x1b]8;;\x07"@
    }
}

/// The ambient color depth from the environment: `NO_COLOR` set, then
/// `COLORTERM` naming true color, then `TERM` naming 256 colors.
pub open spec fn ambient_level(
    no_color_set: bool,
    colorterm: Option<Seq<char>>,
    term: Option<Seq<char>>,
) -> ColorLevel {
    if no_color_set {
        ColorLevel::NoColor
    } else if colorterm matches Some(ct) && (contains_seq(ct, "truecolor"@) || contains_seq(
        ct,
        "24bit"@,
    )) {
        ColorLevel::TrueColor
    } else if term matches Some(t) && contains_seq(t, "256color"@) {
        ColorLevel::Color256
    } else {
        ColorLevel::Basic16
    }
}

/// An explicit level, if `s` names one.
pub open spec fn named_level(s: Seq<char>) -> Option<ColorLevel> {
    if s == "none"@ {
        Some(ColorLevel::NoColor)
    } else if s == "16"@ {
        Some(ColorLevel::Basic16)
    } else if s == "256"@ {
        Some(ColorLevel::Color256)
    } else if s == "truecolor"@ {
        Some(ColorLevel::TrueColor)
    } else {
        None
    }
}

pub open spec fn opt_view(o: Option<&str>) -> Option<Seq<char>> {
    match o {
        Some(s) => Some(s@),
        None => None,
    }
}

/// Without color every styling call yields nothing at all, whatever the color.
pub proof fn lemma_no_color_is_silent(c: ColorValue, url: Seq<char>, text: Seq<char>)
    ensures
        color_seq(ColorLevel::NoColor, c, false).len() == 0,
        color_seq(ColorLevel::NoColor, c, true).len() == 0,
        bold_seq(ColorLevel::NoColor).len() == 0,
        reset_seq(ColorLevel::NoColor).len() == 0,
        link_seq(ColorLevel::NoColor, url, text) == text,
{
}

/// A lowercase hexadecimal digit.
pub open spec fn hex_char(d: nat) -> char {
    if d == 0 {
        '0'
    } else if d == 1 {
        '1'
    } else if d == 2 {
        '2'
    } else if d == 3 {
        '3'
    } else if d == 4 {
        '4'
    } else if d == 5 {
        '5'
    } else if d == 6 {
        '6'
    } else if d == 7 {
        '7'
    } else if d == 8 {
        '8'
    } else if d == 9 {
        '9'
    } else if d == 10 {
        'a'
    } else if d == 11 {
        'b'
    } else if d == 12 {
        'c'
    } else if d == 13 {
        'd'
    } else if d == 14 {
        'e'
    } else {
        'f'
    }
}

/// `#rrggbb` in lowercase hexadecimal.
pub open spec fn hex_literal(r: u8, g: u8, b: u8) -> Seq<char> {
    seq![
        '#',
        hex_char((r / 16) as nat),
        hex_char((r % 16) as nat),
        hex_char((g / 16) as nat),
        hex_char((g % 16) as nat),
        hex_char((b / 16) as nat),
        hex_char((b % 16) as nat),
    ]
}

pub proof fn lemma_hex_char(d: nat)
    requires
        d < 16,
    ensures
        is_hex_digit(hex_char(d)),
        hex_digit_value(hex_char(d)) == d,
        (hex_char(d) as u32) < 128,
{
}

proof fn lemma_hex_pair(x: u8)
    ensures
        hex_pair_value(hex_char((x / 16) as nat), hex_char((x % 16) as nat)) == x,
{
    lemma_hex_char((x / 16) as nat);
    lemma_hex_char((x % 16) as nat);
}

/// Parsing `#rrggbb` gives back the triple, and a true-color foreground for
/// it writes the three channels in decimal.
pub proof fn lemma_hex_round_trip(r: u8, g: u8, b: u8)
    ensures
        parse_color_value(hex_literal(r, g, b)) == ColorValue::Rgb(r, g, b),
        color_seq(ColorLevel::TrueColor, parse_color_value(hex_literal(r, g, b)), false) == rgb_seq(
            r,
            g,
            b,
            false,
        ),
{
    let s = hex_literal(r, g, b);
    reveal_strlit("black");
    reveal_strlit("red");
    reveal_strlit("green");
    reveal_strlit("yellow");
    reveal_strlit("blue");
    reveal_strlit("magenta");
    reveal_strlit("cyan");
    reveal_strlit("white");
    reveal_strlit("brightBlack");
    reveal_strlit("brightRed");
    reveal_strlit("brightGreen");
    reveal_strlit("brightYellow");
    reveal_strlit("brightBlue");
    reveal_strlit("brightMagenta");
    reveal_strlit("brightCyan");
    reveal_strlit("brightWhite");
    reveal_strlit("bright_black");
    reveal_strlit("bright_red");
    reveal_strlit("bright_green");
    reveal_strlit("bright_yellow");
    reveal_strlit("bright_blue");
    reveal_strlit("bright_magenta");
    reveal_strlit("bright_cyan");
    reveal_strlit("bright_white");
    assert(canonical_name(s) is None);
    lemma_hex_pair(r);
    lemma_hex_pair(g);
    lemma_hex_pair(b);
    assert forall|i: int| 1 <= i < 7 implies is_hex_digit(#[trigger] s[i]) by {
        lemma_hex_char((r / 16) as nat);
        lemma_hex_char((r % 16) as nat);
        lemma_hex_char((g / 16) as nat);
        lemma_hex_char((g % 16) as nat);
        lemma_hex_char((b / 16) as nat);
        lemma_hex_char((b % 16) as nat);
    }
    assert(is_hex_literal(s));
}


// ---------------------------------------------------------------------------
// Executable parts.

fn canonical_name_exec(s: &str) -> (r: Option<&'static str>)
    ensures
        opt_view(r) == canonical_name(s@),
{
    if str_eq(s, "black") {
        Some("black")
    } else if str_eq(s, "red") {
        Some("red")
    } else if str_eq(s, "green") {
        Some("green")
    } else if str_eq(s, "yellow") {
        Some("yellow")
    } else if str_eq(s, "blue") {
        Some("blue")
    } else if str_eq(s, "magenta") {
        Some("magenta")
    } else if str_eq(s, "cyan") {
        Some("cyan")
    } else if str_eq(s, "white") {
        Some("white")
    } else if str_eq(s, "brightBlack") || str_eq(s, "bright_black") {
        Some("brightBlack")
    } else if str_eq(s, "brightRed") || str_eq(s, "bright_red") {
        Some("brightRed")
    } else if str_eq(s, "brightGreen") || str_eq(s, "bright_green") {
        Some("brightGreen")
    } else if str_eq(s, "brightYellow") || str_eq(s, "bright_yellow") {
        Some("brightYellow")
    } else if str_eq(s, "brightBlue") || str_eq(s, "bright_blue") {
        Some("brightBlue")
    } else if str_eq(s, "brightMagenta") || str_eq(s, "bright_magenta") {
        Some("brightMagenta")
    } else if str_eq(s, "brightCyan") || str_eq(s, "bright_cyan") {
        Some("brightCyan")
    } else if str_eq(s, "brightWhite") || str_eq(s, "bright_white") {
        Some("brightWhite")
    } else {
        None
    }
}

fn hex_digit(c: char) -> (r: Option<u8>)
    ensures
        is_hex_digit(c) <==> r is Some,
        r matches Some(v) ==> v as nat == hex_digit_value(c) && v < 16,
{
    if '0' <= c && c <= '9' {
        Some((c as u32 - '0' as u32) as u8)
    } else if 'a' <= c && c <= 'f' {
        Some((c as u32 - 'a' as u32 + 10) as u8)
    } else if 'A' <= c && c <= 'F' {
        Some((c as u32 - 'A' as u32 + 10) as u8)
    } else {
        None
    }
}

fn hex_pair(a: char, b: char) -> (r: u8)
    requires
        is_hex_digit(a),
        is_hex_digit(b),
    ensures
        r as nat == hex_pair_value(a, b),
{
    match (hex_digit(a), hex_digit(b)) {
        (Some(x), Some(y)) => 16 * x + y,
        _ => 0,
    }
}

fn is_hex_literal_exec(s: &str) -> (r: bool)
    ensures
        r == is_hex_literal(s@),
{
    let n = s.unicode_len();
    if n != 7 || s.get_char(0) != '#' {
        return false;
    }
    let mut i: usize = 1;
    while i < 7
        invariant
            n == 7 == s@.len(),
            1 <= i <= 7,
            forall|j: int| 1 <= j < i ==> is_hex_digit(#[trigger] s@[j]),
        decreases 7 - i,
    {
        if hex_digit(s.get_char(i)).is_none() {
            return false;
        }
        i = i + 1;
    }
    true
}

fn parse_byte_exec(s: &str) -> (r: Option<u8>)
    ensures
        r == parse_byte(s@),
{
    let n = s.unicode_len();
    let start: usize = if n > 0 && s.get_char(0) == '+' {
        1
    } else {
        0
    };
    let ghost d = unsigned_part(s@);
    assert(d == s@.subrange(start as int, n as int));
    if start >= n {
        return None;
    }
    // `acc` is the value read so far, held at 256 once it is too large.
    let mut acc: u32 = 0;
    let mut i: usize = start;
    while i < n
        invariant
            n == s@.len(),
            start <= i <= n,
            d == s@.subrange(start as int, n as int),
            d == unsigned_part(s@),
            forall|j: int| start <= j < i ==> is_dec_digit(#[trigger] s@[j]),
            acc <= 256,
            acc == (if digits_value(s@.subrange(start as int, i as int)) < 256 {
                digits_value(s@.subrange(start as int, i as int))
            } else {
                256
            }),
        decreases n - i,
    {
        let c = s.get_char(i);
        if !('0' <= c && c <= '9') {
            assert(d[i - start] == c);
            assert(!is_dec_digit(d[i - start]));
            return None;
        }
        let ghost prev = s@.subrange(start as int, i as int);
        let ghost next = s@.subrange(start as int, i + 1);
        assert(next.drop_last() == prev);
        assert(next.last() == c);
        let dv = c as u32 - '0' as u32;
        if acc >= 256 {
            assert(digits_value(next) >= 256) by (nonlinear_arith)
                requires
                    digits_value(next) == digits_value(prev) * 10 + dv,
                    digits_value(prev) >= 256,
            ;
        } else {
            let v = acc * 10 + dv;
            acc = if v < 256 {
                v
            } else {
                256
            };
        }
        i = i + 1;
    }
    assert(s@.subrange(start as int, n as int) == d);
    assert(all_dec_digits(d)) by {
        assert forall|j: int| 0 <= j < d.len() implies is_dec_digit(#[trigger] d[j]) by {
            assert(d[j] == s@[start + j]);
        }
    }
    if acc < 256 {
        Some(acc as u8)
    } else {
        None
    }
}

/// Palette index for an RGB triple (exact grays use the gray ramp).
pub fn rgb_to_256(r: u8, g: u8, b: u8) -> (i: u8)
    ensures
        i as nat == rgb_to_256_spec(r, g, b),
{
    if r == g && g == b {
        if r < 8 {
            return 16;
        }
        if r > 248 {
            return 231;
        }
        return ((r as u16 - 8) * 24 / 247 + 232) as u8;
    }
    let ri = (r as u16 * 5 / 255) as u8;
    let gi = (g as u16 * 5 / 255) as u8;
    let bi = (b as u16 * 5 / 255) as u8;
    16 + 36 * ri + 6 * gi + bi
}

fn named_fg_code_exec(n: &str) -> (r: &'static str)
    ensures
        r@ == named_fg_code(n@),
{
    if str_eq(n, "black") {
        "30"
    } else if str_eq(n, "red") {
        "31"
    } else if str_eq(n, "green") {
        "32"
    } else if str_eq(n, "yellow") {
        "33"
    } else if str_eq(n, "blue") {
        "34"
    } else if str_eq(n, "magenta") {
        "35"
    } else if str_eq(n, "cyan") {
        "36"
    } else if str_eq(n, "white") {
        "37"
    } else if str_eq(n, "brightBlack") {
        "90"
    } else if str_eq(n, "brightRed") {
        "91"
    } else if str_eq(n, "brightGreen") {
        "92"
    } else if str_eq(n, "brightYellow") {
        "93"
    } else if str_eq(n, "brightBlue") {
        "94"
    } else if str_eq(n, "brightMagenta") {
        "95"
    } else if str_eq(n, "brightCyan") {
        "96"
    } else if str_eq(n, "brightWhite") {
        "97"
    } else {
        "37"
    }
}

fn named_bg_code_exec(n: &str) -> (r: &'static str)
    ensures
        r@ == named_bg_code(n@),
{
    if str_eq(n, "black") {
        "40"
    } else if str_eq(n, "red") {
        "41"
    } else if str_eq(n, "green") {
        "42"
    } else if str_eq(n, "yellow") {
        "43"
    } else if str_eq(n, "blue") {
        "44"
    } else if str_eq(n, "magenta") {
        "45"
    } else if str_eq(n, "cyan") {
        "46"
    } else if str_eq(n, "white") {
        "47"
    } else if str_eq(n, "brightBlack") || str_eq(n, "bgBrightBlack") {
        "100"
    } else if str_eq(n, "brightRed") || str_eq(n, "bgBrightRed") {
        "101"
    } else if str_eq(n, "brightGreen") || str_eq(n, "bgBrightGreen") {
        "102"
    } else if str_eq(n, "brightYellow") || str_eq(n, "bgBrightYellow") {
        "103"
    } else if str_eq(n, "brightBlue") || str_eq(n, "bgBrightBlue") {
        "104"
    } else if str_eq(n, "brightMagenta") || str_eq(n, "bgBrightMagenta") {
        "105"
    } else if str_eq(n, "brightCyan") || str_eq(n, "bgBrightCyan") {
        "106"
    } else if str_eq(n, "brightWhite") || str_eq(n, "bgBrightWhite") {
        "107"
    } else {
        "40"
    }
}

fn named_seq_exec(n: &str, background: bool) -> (r: String)
    ensures
        r@ == named_seq(n@, background),
{
    let code = if background {
        named_bg_code_exec(n)
    } else {
        named_fg_code_exec(n)
    };
    let mut s = String::from_str("\x1b[");
    s.append(code);
    s.append("m");
    s
}

fn indexed_seq_exec(i: u8, background: bool) -> (r: String)
    ensures
        r@ == indexed_seq(i as nat, background),
{
    let mut s = if background {
        String::from_str("\x1b[48;5;")
    } else {
        String::from_str("\x1b[38;5;")
    };
    push_decimal(&mut s, i as u64);
    s.append("m");
    s
}

fn rgb_seq_exec(r: u8, g: u8, b: u8, background: bool) -> (out: String)
    ensures
        out@ == rgb_seq(r, g, b, background),
{
    let mut s = if background {
        String::from_str("\x1b[48;2;")
    } else {
        String::from_str("\x1b[38;2;")
    };
    push_decimal(&mut s, r as u64);
    s.append(";");
    push_decimal(&mut s, g as u64);
    s.append(";");
    push_decimal(&mut s, b as u64);
    s.append("m");
    s
}

fn basic_seq_exec(color: &ColorSpec, background: bool) -> (r: String)
    ensures
        r@ == basic_seq(color@, background),
{
    match color {
        ColorSpec::Named(n) => named_seq_exec(n.as_str(), background),
        _ => {
            proof {
                reveal_strlit("");
            }
            assert(""@ =~= Seq::<char>::empty());
            named_seq_exec("", background)
        },
    }
}

fn palette_seq_exec(color: &ColorSpec, background: bool) -> (r: String)
    ensures
        r@ == palette_seq(color@, background),
{
    match color {
        ColorSpec::Named(n) => named_seq_exec(n.as_str(), background),
        ColorSpec::Ansi256(i) => indexed_seq_exec(*i, background),
        ColorSpec::Rgb(r, g, b) => indexed_seq_exec(rgb_to_256(*r, *g, *b), background),
    }
}

fn truecolor_seq_exec(color: &ColorSpec, background: bool) -> (r: String)
    ensures
        r@ == truecolor_seq(color@, background),
{
    match color {
        ColorSpec::Rgb(r, g, b) => rgb_seq_exec(*r, *g, *b, background),
        _ => palette_seq_exec(color, background),
    }
}

/// The ambient color depth from the environment's `NO_COLOR` (set or not),
/// `COLORTERM` and `TERM`.
pub fn detect_color_level(no_color_set: bool, colorterm: Option<&str>, term: Option<&str>) -> (r:
    ColorLevel)
    ensures
        r == ambient_level(no_color_set, opt_view(colorterm), opt_view(term)),
{
    if no_color_set {
        return ColorLevel::NoColor;
    }
    if let Some(ct) = colorterm {
        if str_contains(ct, "truecolor") || str_contains(ct, "24bit") {
            return ColorLevel::TrueColor;
        }
    }
    if let Some(t) = term {
        if str_contains(t, "256color") {
            return ColorLevel::Color256;
        }
    }
    ColorLevel::Basic16
}

impl Renderer {
    /// A renderer at the level that `override_level` names (`none`, `16`,
    /// `256`, `truecolor`), else at the level detected from the environment.
    pub fn detect(
        override_level: &str,
        no_color_set: bool,
        colorterm: Option<&str>,
        term: Option<&str>,
    ) -> (r: Self)
        ensures
            r.color_level == match named_level(override_level@) {
                Some(l) => l,
                None => ambient_level(no_color_set, opt_view(colorterm), opt_view(term)),
            },
    {
        let color_level = if str_eq(override_level, "none") {
            ColorLevel::NoColor
        } else if str_eq(override_level, "16") {
            ColorLevel::Basic16
        } else if str_eq(override_level, "256") {
            ColorLevel::Color256
        } else if str_eq(override_level, "truecolor") {
            ColorLevel::TrueColor
        } else {
            detect_color_level(no_color_set, colorterm, term)
        };
        Renderer { color_level }
    }

    /// Foreground escape sequence for `color`.
    pub fn fg(&self, color: &ColorSpec) -> (r: String)
        ensures
            r@ == color_seq(self.color_level, color@, false),
    {
        match self.color_level {
            ColorLevel::NoColor => String::new(),
            ColorLevel::Basic16 => self.named_fg(color),
            ColorLevel::Color256 => self.ansi256_fg(color),
            ColorLevel::TrueColor => self.truecolor_fg(color),
        }
    }

    /// Background escape sequence for `color`.
    pub fn bg(&self, color: &ColorSpec) -> (r: String)
        ensures
            r@ == color_seq(self.color_level, color@, true),
    {
        match self.color_level {
            ColorLevel::NoColor => String::new(),
            ColorLevel::Basic16 => self.named_bg(color),
            ColorLevel::Color256 => self.ansi256_bg(color),
            ColorLevel::TrueColor => self.truecolor_bg(color),
        }
    }

    pub fn bold(&self) -> (r: &'static str)
        ensures
            r@ == bold_seq(self.color_level),
    {
        proof {
            reveal_strlit("");
        }
        match self.color_level {
            ColorLevel::NoColor => "",
            _ => "\x1b[1m",
        }
    }

    pub fn reset(&self) -> (r: &'static str)
        ensures
            r@ == reset_seq(self.color_level),
    {
        proof {
            reveal_strlit("");
        }
        match self.color_level {
            ColorLevel::NoColor => "",
            _ => "\x1b[0m",
        }
    }

    /// `text` as an OSC 8 hyperlink to `url`; plain `text` without color.
    pub fn osc8_link(&self, url: &str, text: &str) -> (r: String)
        ensures
            r@ == link_seq(self.color_level, url@, text@),
    {
        match self.color_level {
            ColorLevel::NoColor => String::from_str(text),
            _ => {
                let mut s = String::from_str("\x1b]8;;");
                s.append(url);
                s.append("\x07");
                s.append(text);
                s.append("\x1b]8;;\x07");
                s
            },
        }
    }

    /// Parses a color name, `#RRGGBB` literal or palette index; anything
    /// else is white.
    pub fn parse_color(name: &str) -> (r: ColorSpec)
        ensures
            r@ == parse_color_value(name@),
    {
        if let Some(n) = canonical_name_exec(name) {
            return ColorSpec::Named(String::from_str(n));
        }
        if is_hex_literal_exec(name) {
            let r = hex_pair(name.get_char(1), name.get_char(2));
            let g = hex_pair(name.get_char(3), name.get_char(4));
            let b = hex_pair(name.get_char(5), name.get_char(6));
            return ColorSpec::Rgb(r, g, b);
        }
        match parse_byte_exec(name) {
            Some(i) => ColorSpec::Ansi256(i),
            None => ColorSpec::Named(String::from_str("white")),
        }
    }

    fn named_fg(&self, color: &ColorSpec) -> (r: String)
        ensures
            r@ == basic_seq(color@, false),
    {
        basic_seq_exec(color, false)
    }

    fn named_bg(&self, color: &ColorSpec) -> (r: String)
        ensures
            r@ == basic_seq(color@, true),
    {
        basic_seq_exec(color, true)
    }

    fn ansi256_fg(&self, color: &ColorSpec) -> (r: String)
        ensures
            r@ == palette_seq(color@, false),
    {
        palette_seq_exec(color, false)
    }

    fn ansi256_bg(&self, color: &ColorSpec) -> (r: String)
        ensures
            r@ == palette_seq(color@, true),
    {
        palette_seq_exec(color, true)
    }

    fn truecolor_fg(&self, color: &ColorSpec) -> (r: String)
        ensures
            r@ == truecolor_seq(color@, false),
    {
        truecolor_seq_exec(color, false)
    }

    fn truecolor_bg(&self, color: &ColorSpec) -> (r: String)
        ensures
            r@ == truecolor_seq(color@, true),
    {
        truecolor_seq_exec(color, true)
    }
}

} // verus!

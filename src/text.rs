//! Text primitives: string comparison and building, decimal formatting,
//! display-width measurement and removal of terminal escape sequences.
use vstd::prelude::*;

verus! {

/// Equality of two string slices, character by character.
pub fn str_eq(a: &str, b: &str) -> (r: bool)
    ensures
        r == (a@ == b@),
{
    let n = a.unicode_len();
    if n != b.unicode_len() {
        return false;
    }
    let mut i: usize = 0;
    while i < n
        invariant
            n == a@.len(),
            n == b@.len(),
            i <= n,
            a@.subrange(0, i as int) == b@.subrange(0, i as int),
        decreases n - i,
    {
        if a.get_char(i) != b.get_char(i) {
            assert(a@[i as int] != b@[i as int]);
            return false;
        }
        assert(a@.subrange(0, i + 1) == a@.subrange(0, i as int).push(a@[i as int]));
        assert(b@.subrange(0, i + 1) == b@.subrange(0, i as int).push(b@[i as int]));
        i = i + 1;
    }
    assert(a@ == a@.subrange(0, n as int));
    assert(b@ == b@.subrange(0, n as int));
    true
}

/// Whether `needle` occurs as a contiguous run of characters in `hay`.
pub open spec fn occurs_at(hay: Seq<char>, needle: Seq<char>, k: int) -> bool {
    0 <= k && k + needle.len() <= hay.len() && hay.subrange(k, k + needle.len()) == needle
}

pub open spec fn contains_seq(hay: Seq<char>, needle: Seq<char>) -> bool {
    exists|k: int| occurs_at(hay, needle, k)
}

/// Substring search.
pub fn str_contains(hay: &str, needle: &str) -> (r: bool)
    ensures
        r == contains_seq(hay@, needle@),
{
    let n = hay.unicode_len();
    let m = needle.unicode_len();
    if m > n {
        assert forall|k: int| !occurs_at(hay@, needle@, k) by {}
        return false;
    }
    let mut k: usize = 0;
    while k <= n - m
        invariant
            n == hay@.len(),
            m == needle@.len(),
            m <= n,
            k <= n - m + 1,
            forall|j: int| 0 <= j < k ==> !occurs_at(hay@, needle@, j),
        decreases n - m + 1 - k,
    {
        let mut i: usize = 0;
        let mut same = true;
        while i < m
            invariant
                n == hay@.len(),
                m == needle@.len(),
                k + m <= n,
                i <= m,
                same ==> hay@.subrange(k as int, k + i) == needle@.subrange(0, i as int),
                !same ==> !occurs_at(hay@, needle@, k as int),
            decreases m - i,
        {
            if same {
                if hay.get_char(k + i) != needle.get_char(i) {
                    same = false;
                    assert(hay@.subrange(k as int, k + m)[i as int] != needle@[i as int]);
                } else {
                    assert(hay@.subrange(k as int, k + i + 1) == hay@.subrange(
                        k as int,
                        k + i,
                    ).push(hay@[k + i]));
                    assert(needle@.subrange(0, i + 1) == needle@.subrange(0, i as int).push(
                        needle@[i as int],
                    ));
                }
            }
            i = i + 1;
        }
        if same {
            assert(needle@.subrange(0, m as int) == needle@);
            assert(occurs_at(hay@, needle@, k as int));
            return true;
        }
        if k == n - m {
            assert forall|j: int| !occurs_at(hay@, needle@, j) by {}
            return false;
        }
        k = k + 1;
    }
    assert forall|j: int| !occurs_at(hay@, needle@, j) by {}
    false
}

/// Relies on std's `String::push`: appends one character.
#[verifier::external_body]
pub(crate) fn push_char(s: &mut String, c: char)
    ensures
        final(s)@ == old(s)@.push(c),
{
    s.push(c);
}

/// The characters of a number written in decimal, most significant first.
pub open spec fn decimal(n: nat) -> Seq<char>
    decreases n,
{
    if n < 10 {
        seq![digit_char(n)]
    } else {
        decimal(n / 10).push(digit_char(n % 10))
    }
}

pub open spec fn digit_char(d: nat) -> char {
    if d == 0 {
        '0'
    } else if d == 1 {
        '1'
    } else if d == 2 {
        '2'
    } else if d == 3 {
        '3'
    } else if d == 4 {
        '4'
    } else if d == 5 {
        '5'
    } else if d == 6 {
        '6'
    } else if d == 7 {
        '7'
    } else if d == 8 {
        '8'
    } else {
        '9'
    }
}

fn digit(d: u8) -> (c: char)
    requires
        d < 10,
    ensures
        c == digit_char(d as nat),
{
    match d {
        0 => '0',
        1 => '1',
        2 => '2',
        3 => '3',
        4 => '4',
        5 => '5',
        6 => '6',
        7 => '7',
        8 => '8',
        _ => '9',
    }
}

/// Appends `n` in decimal.
pub fn push_decimal(s: &mut String, n: u64)
    ensures
        final(s)@ == old(s)@ + decimal(n as nat),
    decreases n,
{
    if n >= 10 {
        push_decimal(s, n / 10);
    }
    push_char(s, digit((n % 10) as u8));
    assert(final(s)@ =~= old(s)@ + decimal(n as nat));
}

/// A string made of `s` repeated `n` times.
pub open spec fn repeat_seq(s: Seq<char>, n: nat) -> Seq<char>
    decreases n,
{
    if n == 0 {
        Seq::empty()
    } else {
        repeat_seq(s, (n - 1) as nat) + s
    }
}

/// `s` repeated `n` times.
pub fn repeat_str(s: &str, n: usize) -> (r: String)
    ensures
        r@ == repeat_seq(s@, n as nat),
{
    let mut r = String::new();
    let mut i: usize = 0;
    while i < n
        invariant
            i <= n,
            r@ == repeat_seq(s@, i as nat),
        decreases n - i,
    {
        r.append(s);
        i = i + 1;
    }
    r
}

/// Column count that the unicode-width crate gives a character;
/// `None` for a control character.
pub uninterp spec fn char_columns(c: char) -> Option<usize>;

/// Relies on `unicode_width::UnicodeWidthChar::width` (0.2): the columns of
/// one character, `None` for the control codes below U+0020 and
/// U+007F..U+00A0, exactly 1 for printable ASCII, never more than 3.
#[verifier::external_body]
fn unicode_char_width(c: char) -> (r: Option<usize>)
    ensures
        r == char_columns(c),
        (c as u32) < 0x20 ==> r is None,
        0x7f <= (c as u32) < 0xa0 ==> r is None,
        0x20 <= (c as u32) < 0x7f ==> r == Some(1usize),
        r matches Some(w) ==> w <= 3,
{
    unicode_width::UnicodeWidthChar::width(c)
}

/// The cell width of one character: control characters take no cells.
pub open spec fn cell_width(c: char) -> nat {
    match char_columns(c) {
        Some(w) => w as nat,
        None => 0,
    }
}

/// Display width of a string: the sum of its characters' cell widths.
pub open spec fn width_of(s: Seq<char>) -> nat
    decreases s.len(),
{
    if s.len() == 0 {
        0
    } else {
        width_of(s.drop_last()) + cell_width(s.last())
    }
}

/// Display width as measured in a `usize`, saturating at its largest value.
pub open spec fn measured_width(s: Seq<char>) -> nat {
    if width_of(s) <= usize::MAX {
        width_of(s)
    } else {
        usize::MAX as nat
    }
}

/// The cell width of one character.
pub fn char_width(c: char) -> (r: usize)
    ensures
        r == cell_width(c),
        r <= 3,
        0x20 <= (c as u32) < 0x7f ==> r == 1,
{
    match unicode_char_width(c) {
        Some(w) => w,
        None => 0,
    }
}

/// The display width of a string, in terminal cells.
pub fn display_width(s: &str) -> (r: usize)
    ensures
        r == measured_width(s@),
{
    let n = s.unicode_len();
    let mut total: usize = 0;
    let mut i: usize = 0;
    while i < n
        invariant
            n == s@.len(),
            i <= n,
            total == measured_width(s@.subrange(0, i as int)),
        decreases n - i,
    {
        let c = s.get_char(i);
        let w = char_width(c);
        assert(s@.subrange(0, i + 1).drop_last() == s@.subrange(0, i as int));
        total = total.saturating_add(w);
        i = i + 1;
    }
    assert(s@.subrange(0, n as int) == s@);
    total
}

pub proof fn lemma_width_concat(a: Seq<char>, b: Seq<char>)
    ensures
        width_of(a + b) == width_of(a) + width_of(b),
    decreases b.len(),
{
    if b.len() == 0 {
        assert(a + b == a);
    } else {
        assert((a + b).drop_last() == a + b.drop_last());
        lemma_width_concat(a, b.drop_last());
    }
}


pub proof fn lemma_width_repeat(s: Seq<char>, n: nat)
    ensures
        width_of(repeat_seq(s, n)) == n * width_of(s),
    decreases n,
{
    if n > 0 {
        let m = (n - 1) as nat;
        lemma_width_repeat(s, m);
        lemma_width_concat(repeat_seq(s, m), s);
        assert(repeat_seq(s, n) == repeat_seq(s, m) + s);
        assert(n * width_of(s) == m * width_of(s) + width_of(s)) by (nonlinear_arith)
            requires
                n == m + 1,
        ;
    } else {
        assert(repeat_seq(s, n).len() == 0);
        assert(0 * width_of(s) == 0);
    }
}

/// Where the escape scanner stands between two characters.
#[derive(Clone, Copy, PartialEq, Eq, Structural)]
pub enum ScanState {
    /// Plain text.
    Text,
    /// Just after an ESC.
    Escape,
    /// Inside a control sequence (`ESC [`), which ends at a letter.
    Control,
    /// Inside an operating-system command (`ESC ]`), which ends at BEL or at `ESC \`.
    Command,
    /// Just after an ESC inside an operating-system command.
    CommandEscape,
}

pub open spec fn is_ascii_letter(c: char) -> bool {
    ('a' <= c && c <= 'z') || ('A' <= c && c <= 'Z')
}

/// One step of the scanner: the next state, and whether `c` is visible text.
pub open spec fn scan_step(st: ScanState, c: char) -> (ScanState, bool) {
    match st {
        ScanState::Text => if c == '\x1b' {
            (ScanState::Escape, false)
        } else {
            (ScanState::Text, true)
        },
        ScanState::Escape => if c == ']' {
            (ScanState::Command, false)
        } else if is_ascii_letter(c) || c == '\\' {
            (ScanState::Text, false)
        } else {
            (ScanState::Control, false)
        },
        ScanState::Control => if is_ascii_letter(c) {
            (ScanState::Text, false)
        } else {
            (ScanState::Control, false)
        },
        ScanState::Command => if c == '\x07' {
            (ScanState::Text, false)
        } else if c == '\x1b' {
            (ScanState::CommandEscape, false)
        } else {
            (ScanState::Command, false)
        },
        ScanState::CommandEscape => (ScanState::Text, false),
    }
}

/// Scans `s` from state `st`: the visible characters and the final state.
pub open spec fn scan(st: ScanState, s: Seq<char>) -> (Seq<char>, ScanState)
    decreases s.len(),
{
    if s.len() == 0 {
        (Seq::empty(), st)
    } else {
        let (out, mid) = scan(st, s.drop_last());
        let (next, keep) = scan_step(mid, s.last());
        (if keep { out.push(s.last()) } else { out }, next)
    }
}

/// The visible text of `s`: every escape sequence removed.
pub open spec fn strip_escapes(s: Seq<char>) -> Seq<char> {
    scan(ScanState::Text, s).0
}

fn scan_step_exec(st: ScanState, c: char) -> (r: (ScanState, bool))
    ensures
        r == scan_step(st, c),
{
    let letter = ('a' <= c && c <= 'z') || ('A' <= c && c <= 'Z');
    match st {
        ScanState::Text => if c == '\x1b' {
            (ScanState::Escape, false)
        } else {
            (ScanState::Text, true)
        },
        ScanState::Escape => if c == ']' {
            (ScanState::Command, false)
        } else if letter || c == '\\' {
            (ScanState::Text, false)
        } else {
            (ScanState::Control, false)
        },
        ScanState::Control => if letter {
            (ScanState::Text, false)
        } else {
            (ScanState::Control, false)
        },
        ScanState::Command => if c == '\x07' {
            (ScanState::Text, false)
        } else if c == '\x1b' {
            (ScanState::CommandEscape, false)
        } else {
            (ScanState::Command, false)
        },
        ScanState::CommandEscape => (ScanState::Text, false),
    }
}

/// A control sequence: ESC `[`, parameters without letters, a final letter
/// (SGR sequences end in `m`).
pub open spec fn is_csi(t: Seq<char>) -> bool {
    t.len() >= 3 && t[0] == '\x1b' && t[1] == '[' && is_ascii_letter(t.last()) && forall|i: int|
        2 <= i < t.len() - 1 ==> !is_ascii_letter(#[trigger] t[i])
}

/// An operating-system command: ESC `]`, a body without BEL or ESC, then BEL.
pub open spec fn is_osc(t: Seq<char>) -> bool {
    t.len() >= 3 && t[0] == '\x1b' && t[1] == ']' && t.last() == '\x07' && forall|i: int|
        2 <= i < t.len() - 1 ==> #[trigger] t[i] != '\x07' && t[i] != '\x1b'
}

pub open spec fn is_printable(t: Seq<char>) -> bool {
    t.len() == 1 && t[0] != '\x1b'
}

/// A piece of terminal text: one printable character or one escape sequence.
pub open spec fn is_piece(t: Seq<char>) -> bool {
    is_printable(t) || is_csi(t) || is_osc(t)
}

pub open spec fn concat_all(ts: Seq<Seq<char>>) -> Seq<char>
    decreases ts.len(),
{
    if ts.len() == 0 {
        Seq::empty()
    } else {
        concat_all(ts.drop_last()) + ts.last()
    }
}

/// The printable characters among the pieces, in order.
pub open spec fn printable_text(ts: Seq<Seq<char>>) -> Seq<char>
    decreases ts.len(),
{
    if ts.len() == 0 {
        Seq::empty()
    } else {
        printable_text(ts.drop_last()) + if is_printable(ts.last()) {
            ts.last()
        } else {
            Seq::empty()
        }
    }
}

pub proof fn lemma_scan_concat(st: ScanState, a: Seq<char>, b: Seq<char>)
    ensures
        scan(st, a + b) == (scan(st, a).0 + scan(scan(st, a).1, b).0, scan(scan(st, a).1, b).1),
    decreases b.len(),
{
    if b.len() == 0 {
        assert(a + b == a);
        assert(scan(st, a).0 + Seq::<char>::empty() == scan(st, a).0);
    } else {
        assert((a + b).drop_last() == a + b.drop_last());
        lemma_scan_concat(st, a, b.drop_last());
        let mid = scan(scan(st, a).1, b.drop_last());
        let (next, keep) = scan_step(mid.1, b.last());
        if keep {
            assert(scan(st, a).0 + mid.0.push(b.last()) == (scan(st, a).0 + mid.0).push(b.last()));
        }
    }
}

proof fn lemma_scan_csi_prefix(t: Seq<char>, k: int)
    requires
        is_csi(t),
        2 <= k <= t.len() - 1,
    ensures
        scan(ScanState::Text, t.subrange(0, k)) == (Seq::<char>::empty(), ScanState::Control),
    decreases k,
{
    let p = t.subrange(0, k);
    assert(p.drop_last() == t.subrange(0, k - 1));
    assert(p.last() == t[k - 1]);
    if k == 2 {
        let p1 = t.subrange(0, 1);
        assert(p1.drop_last() == Seq::<char>::empty());
        assert(p1.last() == t[0]);
        assert(p1.len() == 1);
        assert(scan(ScanState::Text, p1.drop_last()) == (Seq::<char>::empty(), ScanState::Text));
        assert(scan_step(ScanState::Text, p1.last()) == (ScanState::Escape, false));
        assert(scan(ScanState::Text, p1) == (Seq::<char>::empty(), ScanState::Escape));
    } else {
        lemma_scan_csi_prefix(t, k - 1);
        assert(!is_ascii_letter(t[k - 1]));
    }
}

proof fn lemma_scan_osc_prefix(t: Seq<char>, k: int)
    requires
        is_osc(t),
        2 <= k <= t.len() - 1,
    ensures
        scan(ScanState::Text, t.subrange(0, k)) == (Seq::<char>::empty(), ScanState::Command),
    decreases k,
{
    let p = t.subrange(0, k);
    assert(p.drop_last() == t.subrange(0, k - 1));
    assert(p.last() == t[k - 1]);
    if k == 2 {
        let p1 = t.subrange(0, 1);
        assert(p1.drop_last() == Seq::<char>::empty());
        assert(p1.last() == t[0]);
        assert(p1.len() == 1);
        assert(scan(ScanState::Text, p1.drop_last()) == (Seq::<char>::empty(), ScanState::Text));
        assert(scan_step(ScanState::Text, p1.last()) == (ScanState::Escape, false));
        assert(scan(ScanState::Text, p1) == (Seq::<char>::empty(), ScanState::Escape));
    } else {
        lemma_scan_osc_prefix(t, k - 1);
        assert(t[k - 1] != '\x07' && t[k - 1] != '\x1b');
    }
}

proof fn lemma_scan_piece(t: Seq<char>)
    requires
        is_piece(t),
    ensures
        scan(ScanState::Text, t) == (if is_printable(t) {
            t
        } else {
            Seq::<char>::empty()
        }, ScanState::Text),
{
    if is_printable(t) {
        assert(t.drop_last() == Seq::<char>::empty());
        assert(t.last() == t[0]);
        assert(Seq::<char>::empty().push(t.last()) == t);
    } else if is_csi(t) {
        lemma_scan_csi_prefix(t, t.len() - 1);
        assert(t.drop_last() == t.subrange(0, t.len() - 1));
        assert(scan_step(ScanState::Control, t.last()) == (ScanState::Text, false));
    } else {
        lemma_scan_osc_prefix(t, t.len() - 1);
        assert(t.drop_last() == t.subrange(0, t.len() - 1));
        assert(scan_step(ScanState::Command, t.last()) == (ScanState::Text, false));
    }
}

/// Text made of printable characters and SGR / CSI / OSC escape sequences
/// strips to exactly its printable characters, so its measured display
/// width is the sum of those characters' cell widths and no escape
/// character is ever counted.
pub proof fn lemma_strip_counts_printable_only(ts: Seq<Seq<char>>)
    requires
        forall|i: int| 0 <= i < ts.len() ==> is_piece(#[trigger] ts[i]),
    ensures
        strip_escapes(concat_all(ts)) == printable_text(ts),
        width_of(strip_escapes(concat_all(ts))) == width_of(printable_text(ts)),
        scan(ScanState::Text, concat_all(ts)).1 == ScanState::Text,
    decreases ts.len(),
{
    if ts.len() > 0 {
        let front = ts.drop_last();
        lemma_strip_counts_printable_only(front);
        lemma_scan_concat(ScanState::Text, concat_all(front), ts.last());
        lemma_scan_piece(ts.last());
    }
}

/// Removes SGR / CSI and OSC escape sequences, keeping the visible text.
pub fn strip_ansi(s: &str) -> (r: String)
    ensures
        r@ == strip_escapes(s@),
{
    let n = s.unicode_len();
    let mut out = String::new();
    let mut st = ScanState::Text;
    let mut i: usize = 0;
    while i < n
        invariant
            n == s@.len(),
            i <= n,
            (out@, st) == scan(ScanState::Text, s@.subrange(0, i as int)),
        decreases n - i,
    {
        let c = s.get_char(i);
        assert(s@.subrange(0, i + 1).drop_last() == s@.subrange(0, i as int));
        assert(s@.subrange(0, i + 1).last() == c);
        let (next, keep) = scan_step_exec(st, c);
        if keep {
            push_char(&mut out, c);
        }
        st = next;
        i = i + 1;
    }
    assert(s@.subrange(0, n as int) == s@);
    out
}

/// The display width of `s` once its escape sequences are removed.
pub fn visible_width(s: &str) -> (r: usize)
    ensures
        r == measured_width(strip_escapes(s@)),
{
    let t = strip_ansi(s);
    display_width(t.as_str())
}

} // verus!

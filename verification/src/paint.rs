//! Colorizing display strings through the `colored` crate.
//!
//! Whether `colored` applies an escape sequence at all depends on the process
//! environment (overrides, `NO_COLOR`, whether stdout is a terminal), so every
//! contract here admits the plain string beside the rendered forms; what every
//! outcome shares is its visible text.
use crate::theme::ThemeColor;
use colored::Colorize;
use vstd::prelude::*;

verus! {

pub uninterp spec fn painted(s: Seq<char>, key: Seq<char>) -> Seq<char>;

pub uninterp spec fn painted_bold(s: Seq<char>, key: Seq<char>) -> Seq<char>;

/// A 24-bit rendering of `s`, when the terminal advertises truecolor support.
pub uninterp spec fn painted_rgb(s: Seq<char>, red: u8, green: u8, blue: u8) -> Seq<char>;

pub uninterp spec fn painted_rgb_bold(s: Seq<char>, red: u8, green: u8, blue: u8) -> Seq<char>;

/// The nearest-named-color rendering of `s`, used when it does not.
pub uninterp spec fn painted_rgb_near(s: Seq<char>, red: u8, green: u8, blue: u8) -> Seq<char>;

pub uninterp spec fn painted_rgb_near_bold(s: Seq<char>, red: u8, green: u8, blue: u8) -> Seq<
    char,
>;

/// `s` from position `i` on with ANSI escape sequences removed: an escape
/// character drops everything up to and including the next `m`.
pub open spec fn visible_from(s: Seq<char>, i: int, in_escape: bool) -> Seq<char>
    decreases s.len() - i,
{
    if i < 0 || i >= s.len() {
        Seq::empty()
    } else if in_escape {
        if s[i] == 'm' {
            visible_from(s, i + 1, false)
        } else {
            visible_from(s, i + 1, true)
        }
    } else if s[i] == '\u{1b}' {
        visible_from(s, i + 1, true)
    } else {
        seq![s[i]] + visible_from(s, i + 1, false)
    }
}

/// The visible characters of `s`: what remains once every ANSI escape
/// sequence is stripped.
pub open spec fn visible_text(s: Seq<char>) -> Seq<char> {
    visible_from(s, 0, false)
}

/// `s` holds no escape character, so stripping leaves it whole.
pub open spec fn escape_free(s: Seq<char>) -> bool {
    forall|i: int| 0 <= i < s.len() ==> s[i] != '\u{1b}'
}

proof fn lemma_visible_from_tail(a: Seq<char>, b: Seq<char>, i: int, in_escape: bool)
    requires
        a.len() <= i <= a.len() + b.len(),
    ensures
        visible_from(a + b, i, in_escape) == visible_from(b, i - a.len(), in_escape),
    decreases a.len() + b.len() - i,
{
    if i < a.len() + b.len() {
        assert((a + b)[i] == b[i - a.len()]);
        lemma_visible_from_tail(a, b, i + 1, false);
        lemma_visible_from_tail(a, b, i + 1, true);
    }
}

proof fn lemma_visible_from_concat(a: Seq<char>, b: Seq<char>, i: int)
    requires
        0 <= i <= a.len(),
        forall|j: int| i <= j < a.len() ==> a[j] != '\u{1b}',
    ensures
        visible_from(a + b, i, false) == a.subrange(i, a.len() as int) + visible_text(b),
    decreases a.len() - i,
{
    if i == a.len() {
        lemma_visible_from_tail(a, b, i, false);
        assert(a.subrange(i, a.len() as int) + visible_text(b) =~= visible_text(b));
    } else {
        assert((a + b)[i] == a[i]);
        lemma_visible_from_concat(a, b, i + 1);
        assert(visible_from(a + b, i, false) == seq![a[i]] + visible_from(a + b, i + 1, false));
        assert(a.subrange(i, a.len() as int) + visible_text(b) =~= seq![a[i]] + (a.subrange(
            i + 1,
            a.len() as int,
        ) + visible_text(b)));
    }
}

/// A prefix with no escapes passes through stripping unchanged, whatever
/// follows it.
pub proof fn lemma_visible_text_concat_left(a: Seq<char>, b: Seq<char>)
    requires
        escape_free(a),
    ensures
        visible_text(a + b) == a + visible_text(b),
{
    lemma_visible_from_concat(a, b, 0);
    assert(a.subrange(0, a.len() as int) =~= a);
}

/// A string with no escapes is its own visible text.
pub proof fn lemma_visible_text_escape_free(s: Seq<char>)
    requires
        escape_free(s),
    ensures
        visible_text(s) == s,
{
    lemma_visible_text_concat_left(s, Seq::empty());
    assert(s + Seq::<char>::empty() =~= s);
    assert(visible_text(Seq::empty()) =~= Seq::<char>::empty());
    assert(s + visible_text(Seq::empty()) =~= s);
}

/// Freedom from escapes survives concatenation.
pub proof fn lemma_escape_free_concat(a: Seq<char>, b: Seq<char>)
    requires
        escape_free(a),
        escape_free(b),
    ensures
        escape_free(a + b),
{
    assert forall|i: int| 0 <= i < (a + b).len() implies (a + b)[i] != '\u{1b}' by {
        if i < a.len() {
            assert((a + b)[i] == a[i]);
        } else {
            assert((a + b)[i] == b[i - a.len()]);
        }
    }
}

/// The sixteen color keys `colored` resolves to a fixed ANSI code. (Other
/// keys can resolve to 24-bit escapes, whose form is environment-dependent.)
pub open spec fn named_color_key(key: Seq<char>) -> bool {
    ||| key == "black"@
    ||| key == "red"@
    ||| key == "green"@
    ||| key == "yellow"@
    ||| key == "blue"@
    ||| key == "magenta"@
    ||| key == "cyan"@
    ||| key == "white"@
    ||| key == "bright black"@
    ||| key == "bright red"@
    ||| key == "bright green"@
    ||| key == "bright yellow"@
    ||| key == "bright blue"@
    ||| key == "bright magenta"@
    ||| key == "bright cyan"@
    ||| key == "bright white"@
}

/// Relies on colored's `Colorize::color` and `ColoredString`'s `Display`: for a
/// fixed named color key the rendered form is a function of the input string
/// alone; the environment only decides whether it is applied. Every escape
/// colored emits is `ESC [ codes m` with no `m` among the codes, and inner
/// resets are re-escaped by inserting complete sequences, so the visible text
/// never changes.
#[verifier::external_body]
fn color_str(s: &str, key: &str) -> (r: String)
    requires
        named_color_key(key@),
    ensures
        r@ == s@ || r@ == painted(s@, key@),
        visible_text(r@) == visible_text(s@),
{
    s.color(key).to_string()
}

/// Relies on colored's `Colorize::color` and `Colorize::bold`, as `color_str` does.
#[verifier::external_body]
fn color_bold_str(s: &str, key: &str) -> (r: String)
    requires
        named_color_key(key@),
    ensures
        r@ == s@ || r@ == painted_bold(s@, key@),
        visible_text(r@) == visible_text(s@),
{
    s.color(key).bold().to_string()
}

/// Relies on colored's `Colorize::truecolor`: the result is the plain string,
/// the exact 24-bit rendering, or the nearest-named-color rendering —
/// `COLORTERM` picks among them, but each form is a function of the arguments
/// alone, and each changes only escape sequences.
#[verifier::external_body]
fn truecolor_str(s: &str, red: u8, green: u8, blue: u8) -> (r: String)
    ensures
        r@ == s@ || r@ == painted_rgb(s@, red, green, blue) || r@ == painted_rgb_near(
            s@,
            red,
            green,
            blue,
        ),
        visible_text(r@) == visible_text(s@),
{
    s.truecolor(red, green, blue).to_string()
}

/// Relies on colored's `Colorize::truecolor` and `Colorize::bold`, as
/// `truecolor_str` does.
#[verifier::external_body]
fn truecolor_bold_str(s: &str, red: u8, green: u8, blue: u8) -> (r: String)
    ensures
        r@ == s@ || r@ == painted_rgb_bold(s@, red, green, blue) || r@ == painted_rgb_near_bold(
            s@,
            red,
            green,
            blue,
        ),
        visible_text(r@) == visible_text(s@),
{
    s.truecolor(red, green, blue).bold().to_string()
}

/// The key under which `colored` knows each named color.
pub open spec fn color_key_spec(c: ThemeColor) -> Seq<char> {
    match c {
        ThemeColor::Black => "black"@,
        ThemeColor::Red => "red"@,
        ThemeColor::Green => "green"@,
        ThemeColor::Yellow => "yellow"@,
        ThemeColor::Blue => "blue"@,
        ThemeColor::Magenta => "magenta"@,
        ThemeColor::Cyan => "cyan"@,
        ThemeColor::White => "white"@,
        ThemeColor::BrightBlack => "bright black"@,
        ThemeColor::BrightRed => "bright red"@,
        ThemeColor::BrightGreen => "bright green"@,
        ThemeColor::BrightYellow => "bright yellow"@,
        ThemeColor::BrightBlue => "bright blue"@,
        ThemeColor::BrightMagenta => "bright magenta"@,
        ThemeColor::BrightCyan => "bright cyan"@,
        ThemeColor::BrightWhite => "bright white"@,
        ThemeColor::Rgb(_, _, _) => Seq::empty(),
    }
}

fn color_key(c: ThemeColor) -> (r: &'static str)
    requires
        !(c matches ThemeColor::Rgb(..)),
    ensures
        r@ == color_key_spec(c),
{
    match c {
        ThemeColor::Black => "black",
        ThemeColor::Red => "red",
        ThemeColor::Green => "green",
        ThemeColor::Yellow => "yellow",
        ThemeColor::Blue => "blue",
        ThemeColor::Magenta => "magenta",
        ThemeColor::Cyan => "cyan",
        ThemeColor::White => "white",
        ThemeColor::BrightBlack => "bright black",
        ThemeColor::BrightRed => "bright red",
        ThemeColor::BrightGreen => "bright green",
        ThemeColor::BrightYellow => "bright yellow",
        ThemeColor::BrightBlue => "bright blue",
        ThemeColor::BrightMagenta => "bright magenta",
        ThemeColor::BrightCyan => "bright cyan",
        ThemeColor::BrightWhite => "bright white",
        ThemeColor::Rgb(_, _, _) => "white",
    }
}

/// What a 24-bit paint call may return: the plain string, the exact 24-bit
/// rendering, or the nearest-named-color rendering.
pub open spec fn rgb_paint_form(
    plain: Seq<char>,
    red: u8,
    green: u8,
    blue: u8,
    bold: bool,
    r: Seq<char>,
) -> bool {
    ||| r == plain
    ||| r == (if bold {
        painted_rgb_bold(plain, red, green, blue)
    } else {
        painted_rgb(plain, red, green, blue)
    })
    ||| r == (if bold {
        painted_rgb_near_bold(plain, red, green, blue)
    } else {
        painted_rgb_near(plain, red, green, blue)
    })
}

/// What a call of [`paint`] may return: one of the renderings the color
/// admits, and in every case a string whose visible text is the plain one's.
pub open spec fn paint_outcome(plain: Seq<char>, c: ThemeColor, bold: bool, r: Seq<char>) -> bool {
    &&& visible_text(r) == visible_text(plain)
    &&& match c {
        ThemeColor::Rgb(red, green, blue) => rgb_paint_form(plain, red, green, blue, bold, r),
        _ => r == plain || r == (if bold {
            painted_bold(plain, color_key_spec(c))
        } else {
            painted(plain, color_key_spec(c))
        }),
    }
}

/// Renders `s` in color `c`, bold if asked.
pub fn paint(s: &str, c: ThemeColor, bold: bool) -> (r: String)
    ensures
        paint_outcome(s@, c, bold, r@),
{
    match c {
        ThemeColor::Rgb(red, green, blue) => {
            if bold {
                truecolor_bold_str(s, red, green, blue)
            } else {
                truecolor_str(s, red, green, blue)
            }
        },
        _ => {
            let key = color_key(c);
            if bold {
                color_bold_str(s, key)
            } else {
                color_str(s, key)
            }
        },
    }
}

} // verus!

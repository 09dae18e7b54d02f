//! Pure formatting of host facts into display strings: decimal rendering,
//! uptime, byte sizes, and the memory progress bar.
use crate::paint::escape_free;
use crate::paint::lemma_visible_text_escape_free;
use crate::paint::paint;
use crate::paint::paint_outcome;
use crate::paint::visible_text;
use crate::theme::Theme;
use crate::theme::ThemeColor;
use vstd::arithmetic::div_mod::lemma_multiply_divide_le;
use vstd::arithmetic::mul::lemma_mul_inequality;
use vstd::prelude::*;

verus! {

pub const GB_BYTES: u64 = 1073741824;

pub const MB_BYTES: u64 = 1048576;

/// The character for a single decimal digit.
pub open spec fn dec_digit_char(d: nat) -> char
    recommends
        d < 10,
{
    if d == 0 {
        '0'
    } else if d == 1 {
        '1'
    } else if d == 2 {
        '2'
    } else if d == 3 {
        '3'
    } else if d == 4 {
        '4'
    } else if d == 5 {
        '5'
    } else if d == 6 {
        '6'
    } else if d == 7 {
        '7'
    } else if d == 8 {
        '8'
    } else {
        '9'
    }
}

/// The usual decimal rendering of a non-negative integer, most significant
/// digit first, with no leading zeros (except for the number 0 itself).
pub open spec fn dec_rep(n: nat) -> Seq<char>
    decreases n,
{
    if n < 10 {
        seq![dec_digit_char(n)]
    } else {
        dec_rep(n / 10) + seq![dec_digit_char(n % 10)]
    }
}

pub open spec fn is_dec_digit(c: char) -> bool {
    '0' <= c && c <= '9'
}

/// Every character of a decimal rendering is a digit, and there is at least one.
pub proof fn lemma_dec_rep_digits(n: nat)
    ensures
        dec_rep(n).len() >= 1,
        forall|j: int| 0 <= j < dec_rep(n).len() ==> is_dec_digit(#[trigger] dec_rep(n)[j]),
    decreases n,
{
    if n >= 10 {
        lemma_dec_rep_digits(n / 10);
    }
}

fn digit_str(d: u64) -> (r: &'static str)
    requires
        d < 10,
    ensures
        r@ == seq![dec_digit_char(d as nat)],
{
    match d {
        0 => {
            proof {
                reveal_strlit("0");
            }
            "0"
        },
        1 => {
            proof {
                reveal_strlit("1");
            }
            "1"
        },
        2 => {
            proof {
                reveal_strlit("2");
            }
            "2"
        },
        3 => {
            proof {
                reveal_strlit("3");
            }
            "3"
        },
        4 => {
            proof {
                reveal_strlit("4");
            }
            "4"
        },
        5 => {
            proof {
                reveal_strlit("5");
            }
            "5"
        },
        6 => {
            proof {
                reveal_strlit("6");
            }
            "6"
        },
        7 => {
            proof {
                reveal_strlit("7");
            }
            "7"
        },
        8 => {
            proof {
                reveal_strlit("8");
            }
            "8"
        },
        _ => {
            proof {
                reveal_strlit("9");
            }
            "9"
        },
    }
}

/// Renders `n` in decimal.
pub fn u64_string(n: u64) -> (r: String)
    ensures
        r@ == dec_rep(n as nat),
    decreases n,
{
    if n < 10 {
        String::from_str(digit_str(n))
    } else {
        let mut s = u64_string(n / 10);
        s.append(digit_str(n % 10));
        s
    }
}

/// One unit component of an uptime rendering: a count followed by its unit letter.
pub open spec fn unit_part(n: nat, u: char) -> Seq<char> {
    dec_rep(n) + seq![u]
}

/// The uptime rendering: the nonzero `d`/`h` components and the minutes,
/// space-separated; minutes appear whenever days and hours are both absent.
pub open spec fn uptime_text(s: nat) -> Seq<char> {
    let d = s / 86400;
    let h = (s % 86400) / 3600;
    let m = (s % 3600) / 60;
    if d > 0 {
        if h > 0 {
            if m > 0 {
                unit_part(d, 'd') + seq![' '] + unit_part(h, 'h') + seq![' '] + unit_part(m, 'm')
            } else {
                unit_part(d, 'd') + seq![' '] + unit_part(h, 'h')
            }
        } else {
            if m > 0 {
                unit_part(d, 'd') + seq![' '] + unit_part(m, 'm')
            } else {
                unit_part(d, 'd')
            }
        }
    } else {
        if h > 0 {
            if m > 0 {
                unit_part(h, 'h') + seq![' '] + unit_part(m, 'm')
            } else {
                unit_part(h, 'h')
            }
        } else {
            unit_part(m, 'm')
        }
    }
}

/// Formats an uptime given in seconds as its day/hour/minute components.
pub fn format_uptime(seconds: u64) -> (r: String)
    ensures
        r@ == uptime_text(seconds as nat),
{
    proof {
        reveal_strlit("d");
        reveal_strlit("h");
        reveal_strlit("m");
        reveal_strlit(" ");
    }
    let days: u64 = seconds / 86400;
    let hours: u64 = (seconds % 86400) / 3600;
    let mins: u64 = (seconds % 3600) / 60;
    let mut out = String::new();
    let mut any: bool = false;
    if days > 0 {
        let ds = u64_string(days);
        out.append(ds.as_str());
        out.append("d");
        any = true;
    }
    if hours > 0 {
        if any {
            out.append(" ");
        }
        let hs = u64_string(hours);
        out.append(hs.as_str());
        out.append("h");
        any = true;
    }
    if mins > 0 || !any {
        if any {
            out.append(" ");
        }
        let ms = u64_string(mins);
        out.append(ms.as_str());
        out.append("m");
    }
    proof {
        assert(out@ =~= uptime_text(seconds as nat));
    }
    out
}

/// At position `k`, `t` holds its last space-separated component, and that
/// component is a nonempty digit run followed by a unit letter.
pub open spec fn unit_token_at(t: Seq<char>, k: int) -> bool {
    &&& 0 <= k
    &&& k + 2 <= t.len()
    &&& (k == 0 || t[k - 1] == ' ')
    &&& forall|j: int| k <= j < t.len() - 1 ==> is_dec_digit(#[trigger] t[j])
    &&& (t[t.len() - 1] == 'd' || t[t.len() - 1] == 'h' || t[t.len() - 1] == 'm')
}

proof fn lemma_unit_token_concat(pre: Seq<char>, x: nat, u: char)
    requires
        pre.len() == 0 || pre[pre.len() - 1] == ' ',
        u == 'd' || u == 'h' || u == 'm',
    ensures
        unit_token_at(pre + unit_part(x, u), pre.len() as int),
{
    lemma_dec_rep_digits(x);
    let t = pre + unit_part(x, u);
    assert forall|j: int| pre.len() <= j < t.len() - 1 implies is_dec_digit(#[trigger] t[j]) by {
        assert(t[j] == dec_rep(x)[j - pre.len()]);
    }
    assert(t[t.len() - 1] == u);
}

/// Law: an uptime rendering is never empty, and its last space-separated
/// component is a nonempty digit run followed by one of the unit letters
/// `d`, `h` or `m`.
pub proof fn lemma_uptime_text_unit_token(s: nat)
    ensures
        uptime_text(s).len() > 0,
        exists|k: int| unit_token_at(uptime_text(s), k),
{
    let d = s / 86400;
    let h = (s % 86400) / 3600;
    let m = (s % 3600) / 60;
    let t = uptime_text(s);
    let sp = seq![' '];
    if d > 0 {
        if h > 0 {
            if m > 0 {
                let pre = unit_part(d, 'd') + sp + unit_part(h, 'h') + sp;
                assert(t =~= pre + unit_part(m, 'm'));
                lemma_unit_token_concat(pre, m, 'm');
                assert(unit_token_at(t, pre.len() as int));
            } else {
                let pre = unit_part(d, 'd') + sp;
                assert(t =~= pre + unit_part(h, 'h'));
                lemma_unit_token_concat(pre, h, 'h');
                assert(unit_token_at(t, pre.len() as int));
            }
        } else {
            if m > 0 {
                let pre = unit_part(d, 'd') + sp;
                assert(t =~= pre + unit_part(m, 'm'));
                lemma_unit_token_concat(pre, m, 'm');
                assert(unit_token_at(t, pre.len() as int));
            } else {
                let pre = Seq::<char>::empty();
                assert(t =~= pre + unit_part(d, 'd'));
                lemma_unit_token_concat(pre, d, 'd');
                assert(unit_token_at(t, 0));
            }
        }
    } else {
        if h > 0 {
            if m > 0 {
                let pre = unit_part(h, 'h') + sp;
                assert(t =~= pre + unit_part(m, 'm'));
                lemma_unit_token_concat(pre, m, 'm');
                assert(unit_token_at(t, pre.len() as int));
            } else {
                let pre = Seq::<char>::empty();
                assert(t =~= pre + unit_part(h, 'h'));
                lemma_unit_token_concat(pre, h, 'h');
                assert(unit_token_at(t, 0));
            }
        } else {
            let pre = Seq::<char>::empty();
            assert(t =~= pre + unit_part(m, 'm'));
            lemma_unit_token_concat(pre, m, 'm');
            assert(unit_token_at(t, 0));
        }
    }
}

/// `n` tenths rendered with one decimal place: whole part, a point, one digit.
pub open spec fn one_decimal_text(tenths: nat) -> Seq<char> {
    dec_rep(tenths / 10) + seq!['.', dec_digit_char(tenths % 10)]
}

/// A byte count in tenths of `unit`, rounded to the nearest tenth
/// (halves rounded up).
pub open spec fn rounded_tenths(b: nat, unit: nat) -> nat
    recommends
        unit > 0,
{
    (10 * b + unit / 2) / unit
}

/// The byte-count rendering: gigabytes to one decimal at and above one
/// gigabyte, else megabytes to one decimal, with a 1024-based unit.
pub open spec fn bytes_text(b: nat) -> Seq<char> {
    if b >= GB_BYTES {
        one_decimal_text(rounded_tenths(b, GB_BYTES as nat)) + " GB"@
    } else {
        one_decimal_text(rounded_tenths(b, MB_BYTES as nat)) + " MB"@
    }
}

/// Formats a byte count as a human-readable size.
pub fn format_bytes(bytes: u64) -> (r: String)
    ensures
        r@ == bytes_text(bytes as nat),
{
    proof {
        reveal_strlit(" GB");
        reveal_strlit(" MB");
        reveal_strlit(".");
    }
    let unit: u64 = if bytes >= GB_BYTES {
        GB_BYTES
    } else {
        MB_BYTES
    };
    let dividend: u128 = 10 * (bytes as u128) + ((unit / 2) as u128);
    let t_wide: u128 = dividend / (unit as u128);
    proof {
        assert(unit as int * 281474976710656 >= 1048576 * 281474976710656) by {
            lemma_mul_inequality(1048576, unit as int, 281474976710656);
        }
        lemma_multiply_divide_le(dividend as int, unit as int, 281474976710656);
        assert(t_wide < u64::MAX);
    }
    let tenths: u64 = t_wide as u64;
    let mut out = u64_string(tenths / 10);
    out.append(".");
    out.append(digit_str(tenths % 10));
    if bytes >= GB_BYTES {
        out.append(" GB");
    } else {
        out.append(" MB");
    }
    proof {
        assert(out@ =~= bytes_text(bytes as nat));
    }
    out
}

/// The used share of `total`, as a whole percentage clamped into `[0, 100]`;
/// an empty total counts as zero percent.
pub open spec fn percentage_of(used: nat, total: nat) -> nat {
    if total == 0 {
        0
    } else if used * 100 / total > 100 {
        100
    } else {
        used * 100 / total
    }
}

pub open spec fn repeat_char(c: char, n: nat) -> Seq<char> {
    Seq::new(n, |i: int| c)
}

/// How many bar cells out of `width` are filled at `pct` percent.
pub open spec fn bar_fill(pct: nat, width: nat) -> nat {
    pct * width / 100
}

/// The uncolored bar: the filled and empty glyphs between brackets, then the
/// percentage.
pub open spec fn bar_text(pct: nat, width: nat) -> Seq<char>
    recommends
        pct <= 100,
{
    seq!['['] + repeat_char('█', bar_fill(pct, width)) + repeat_char(
        '░',
        (width - bar_fill(pct, width)) as nat,
    ) + seq![']', ' '] + dec_rep(pct) + seq!['%']
}

/// The bar's color: red above 80 percent, amber above 60, else the theme's
/// accent.
pub open spec fn bar_color(pct: nat, theme: Theme) -> ThemeColor {
    if pct > 80 {
        ThemeColor::Red
    } else if pct > 60 {
        ThemeColor::Yellow
    } else {
        theme.accent
    }
}

proof fn lemma_dec_digit_char_is_digit(d: nat)
    ensures
        is_dec_digit(dec_digit_char(d)),
{
}

/// A bar rendering holds only glyphs, brackets, spaces, digits and the
/// percent sign: no escape characters.
pub proof fn lemma_bar_text_escape_free(pct: nat, width: nat)
    ensures
        escape_free(bar_text(pct, width)),
{
    lemma_dec_rep_digits(pct);
    let t = bar_text(pct, width);
    assert forall|i: int| 0 <= i < t.len() implies t[i] != '\u{1b}' by {
        assert(forall|j: int|
            0 <= j < dec_rep(pct).len() ==> is_dec_digit(#[trigger] dec_rep(pct)[j]));
    }
}

/// A byte-count rendering holds only digits, a point, spaces and the unit
/// letters: no escape characters.
pub proof fn lemma_bytes_text_escape_free(b: nat)
    ensures
        escape_free(bytes_text(b)),
{
    reveal_strlit(" GB");
    reveal_strlit(" MB");
    let tenths = if b >= GB_BYTES {
        rounded_tenths(b, GB_BYTES as nat)
    } else {
        rounded_tenths(b, MB_BYTES as nat)
    };
    lemma_dec_rep_digits(tenths / 10);
    lemma_dec_digit_char_is_digit(tenths % 10);
    let t = bytes_text(b);
    assert forall|i: int| 0 <= i < t.len() implies t[i] != '\u{1b}' by {
        assert(forall|j: int|
            0 <= j < dec_rep(tenths / 10).len() ==> is_dec_digit(
                #[trigger] dec_rep(tenths / 10)[j],
            ));
    }
}

/// Law: a colored bar shows exactly the plain bar's text — the color changes
/// only escape sequences, never the visible characters.
pub proof fn lemma_bar_color_changes_only_escapes(
    pct: nat,
    width: nat,
    c: ThemeColor,
    v: Seq<char>,
)
    requires
        paint_outcome(bar_text(pct, width), c, false, v),
    ensures
        visible_text(v) == bar_text(pct, width),
{
    lemma_bar_text_escape_free(pct, width);
    lemma_visible_text_escape_free(bar_text(pct, width));
}

/// Renders a `width`-cell progress bar for `used` out of `total`, colored by
/// the threshold rule unless colors are off.
pub fn progress_bar(used: u64, total: u64, width: usize, theme: &Theme, no_color: bool) -> (r:
    String)
    requires
        width * 100 <= usize::MAX,
    ensures
        no_color ==> r@ == bar_text(percentage_of(used as nat, total as nat), width as nat),
        !no_color ==> paint_outcome(
            bar_text(percentage_of(used as nat, total as nat), width as nat),
            bar_color(percentage_of(used as nat, total as nat), *theme),
            false,
            r@,
        ),
{
    proof {
        reveal_strlit("[");
        reveal_strlit("█");
        reveal_strlit("░");
        reveal_strlit("] ");
        reveal_strlit("%");
    }
    let pct: u64 = if total > 0 {
        let q: u128 = (used as u128) * 100 / (total as u128);
        if q > 100 {
            100
        } else {
            q as u64
        }
    } else {
        0
    };
    let ghost pct_s: nat = percentage_of(used as nat, total as nat);
    proof {
        assert(pct as nat == pct_s);
    }
    proof {
        assert(pct as int * width as int <= 100 * width as int) by {
            lemma_mul_inequality(pct as int, 100, width as int);
        }
        lemma_multiply_divide_le(pct as int * width as int, 100, width as int);
    }
    let filled: usize = (pct as usize) * width / 100;
    let empty: usize = width - filled;
    let mut out = String::from_str("[");
    let mut i: usize = 0;
    while i < filled
        invariant
            i <= filled,
            out@ == seq!['['] + repeat_char('█', i as nat),
        decreases filled - i,
    {
        out.append("█");
        i = i + 1;
        proof {
            reveal_strlit("█");
            assert(out@ =~= seq!['['] + repeat_char('█', i as nat));
        }
    }
    let mut j: usize = 0;
    while j < empty
        invariant
            j <= empty,
            out@ == seq!['['] + repeat_char('█', filled as nat) + repeat_char('░', j as nat),
        decreases empty - j,
    {
        out.append("░");
        j = j + 1;
        proof {
            reveal_strlit("░");
            assert(out@ =~= seq!['['] + repeat_char('█', filled as nat) + repeat_char(
                '░',
                j as nat,
            ));
        }
    }
    out.append("] ");
    let ps = u64_string(pct);
    out.append(ps.as_str());
    out.append("%");
    proof {
        assert(out@ =~= bar_text(pct_s, width as nat));
    }
    if no_color {
        out
    } else {
        let color = if pct > 80 {
            ThemeColor::Red
        } else if pct > 60 {
            ThemeColor::Yellow
        } else {
            theme.accent
        };
        paint(out.as_str(), color, false)
    }
}

} // verus!

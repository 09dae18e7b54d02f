//! Terminal-geometry-aware layout: composing the info column, measuring it,
//! deciding between the raster and text paths, and laying rows out.
use crate::format::dec_rep;
use crate::format::repeat_char;
use crate::format::u64_string;
use vstd::prelude::*;

verus! {

/// One row of the info column: an optional label and a value, both already
/// colorized as the mode asks. An empty label means the value stands alone.
pub struct DisplayLine {
    pub label: String,
    pub value: String,
}

/// How a display line reads once composed: the value alone when the label is
/// empty, else `label: value`.
pub open spec fn composed(label: Seq<char>, value: Seq<char>) -> Seq<char> {
    if label.len() == 0 {
        value
    } else {
        label + ": "@ + value
    }
}

/// Composes each display line into its printed form.
pub fn compose_lines(lines: &Vec<DisplayLine>) -> (r: Vec<String>)
    ensures
        r@.len() == lines@.len(),
        forall|i: int|
            0 <= i < lines@.len() ==> #[trigger] r@[i]@ == composed(
                lines@[i].label@,
                lines@[i].value@,
            ),
{
    proof {
        reveal_strlit(": ");
    }
    let mut r: Vec<String> = Vec::new();
    let n = lines.len();
    let mut i: usize = 0;
    while i < n
        invariant
            n == lines@.len(),
            i <= n,
            r@.len() == i,
            forall|j: int|
                0 <= j < i ==> #[trigger] r@[j]@ == composed(lines@[j].label@, lines@[j].value@),
        decreases n - i,
    {
        let line = &lines[i];
        if line.label.as_str().unicode_len() == 0 {
            r.push(line.value.clone());
        } else {
            let mut s = line.label.clone();
            s.append(": ");
            s.append(line.value.as_str());
            proof {
                assert(s@ =~= composed(lines@[i as int].label@, lines@[i as int].value@));
            }
            r.push(s);
        }
        i = i + 1;
    }
    r
}

/// The widest sequence in `ss`, in characters.
pub open spec fn max_width_of(ss: Seq<Seq<char>>) -> nat
    decreases ss.len(),
{
    if ss.len() == 0 {
        0
    } else {
        let rest = max_width_of(ss.drop_last());
        if ss.last().len() > rest {
            ss.last().len()
        } else {
            rest
        }
    }
}

/// Measures the widest of the composed lines.
pub fn max_line_width(lines: &Vec<String>) -> (w: usize)
    ensures
        w == max_width_of(lines.deep_view()),
{
    let mut w: usize = 0;
    let n = lines.len();
    let mut i: usize = 0;
    while i < n
        invariant
            n == lines@.len(),
            i <= n,
            w == max_width_of(lines.deep_view().take(i as int)),
        decreases n - i,
    {
        let l = lines[i].as_str().unicode_len();
        if l > w {
            w = l;
        }
        proof {
            assert(lines.deep_view().take(i + 1).drop_last() =~= lines.deep_view().take(i as int));
            assert(lines.deep_view().take(i + 1).last() == lines@[i as int]@);
        }
        i = i + 1;
    }
    proof {
        assert(lines.deep_view().take(n as int) =~= lines.deep_view());
    }
    w
}

/// Measures the widest of a block of art rows.
pub fn max_art_width(rows: &Vec<&str>) -> (w: usize)
    ensures
        w == max_width_of(rows.deep_view()),
{
    let mut w: usize = 0;
    let n = rows.len();
    let mut i: usize = 0;
    while i < n
        invariant
            n == rows@.len(),
            i <= n,
            w == max_width_of(rows.deep_view().take(i as int)),
        decreases n - i,
    {
        let l = rows[i].unicode_len();
        if l > w {
            w = l;
        }
        proof {
            assert(rows.deep_view().take(i + 1).drop_last() =~= rows.deep_view().take(i as int));
            assert(rows.deep_view().take(i + 1).last() == rows@[i as int]@);
        }
        i = i + 1;
    }
    proof {
        assert(rows.deep_view().take(n as int) =~= rows.deep_view());
    }
    w
}

/// `s` padded on the right with spaces up to `w` columns; a wider `s` is kept
/// whole.
pub open spec fn padded(s: Seq<char>, w: nat) -> Seq<char> {
    if s.len() >= w {
        s
    } else {
        s + repeat_char(' ', (w - s.len()) as nat)
    }
}

/// Pads `s` on the right with spaces to `w` columns.
pub fn pad_right(s: &str, w: usize) -> (r: String)
    ensures
        r@ == padded(s@, w as nat),
{
    proof {
        reveal_strlit(" ");
    }
    let mut out = s.to_owned();
    let mut l: usize = s.unicode_len();
    while l < w
        invariant
            l >= s@.len(),
            l <= w || l == s@.len(),
            out@ == s@ + repeat_char(' ', (l - s@.len()) as nat),
        decreases w - l,
    {
        out.append(" ");
        l = l + 1;
        proof {
            reveal_strlit(" ");
            assert(out@ =~= s@ + repeat_char(' ', (l - s@.len()) as nat));
        }
    }
    proof {
        assert(s@ + repeat_char(' ', 0) =~= s@);
        assert(out@ =~= padded(s@, w as nat));
    }
    out
}

/// The core-count suffix shown after the CPU model, e.g. `" (8 cores)"`.
pub open spec fn cores_suffix(cores: nat) -> Seq<char> {
    " ("@ + dec_rep(cores) + " cores)"@
}

/// The columns the CPU model may occupy: the info width minus the `CPU: `
/// prefix and the core-count suffix, floored at 4.
pub open spec fn cpu_budget(info_cols: nat, cores: nat) -> nat {
    let reserved = 5 + cores_suffix(cores).len();
    let avail: int = if info_cols > reserved {
        info_cols - reserved
    } else {
        0
    };
    if avail > 4 {
        avail as nat
    } else {
        4
    }
}

/// A CPU model wider than its budget is cut to `budget - 3` characters with a
/// trailing ellipsis; one at or under the budget is kept whole.
pub open spec fn truncated_cpu(cpu: Seq<char>, budget: nat) -> Seq<char>
    recommends
        budget >= 4,
{
    if cpu.len() > budget {
        cpu.take(budget - 3) + "..."@
    } else {
        cpu
    }
}

/// The CPU value line: the possibly-truncated model followed by the
/// core-count suffix.
pub open spec fn cpu_line_text(cpu: Seq<char>, info_cols: nat, cores: nat) -> Seq<char> {
    truncated_cpu(cpu, cpu_budget(info_cols, cores)) + cores_suffix(cores)
}

/// Law: with a budget of at least 4, a CPU model longer than the budget
/// becomes exactly `budget - 3` of its characters plus `...`; a shorter or
/// equal one is untouched.
pub proof fn lemma_cpu_truncation(cpu: Seq<char>, budget: nat)
    requires
        budget >= 4,
    ensures
        cpu.len() > budget ==> truncated_cpu(cpu, budget) == cpu.take(budget - 3) + "..."@
            && cpu.take(budget - 3).len() == budget - 3,
        cpu.len() <= budget ==> truncated_cpu(cpu, budget) == cpu,
{
}

/// Renders the CPU value for the info column.
pub fn cpu_line(cpu: &str, info_cols: usize, cores: usize) -> (r: String)
    ensures
        r@ == cpu_line_text(cpu@, info_cols as nat, cores as nat),
{
    proof {
        reveal_strlit(" (");
        reveal_strlit(" cores)");
        reveal_strlit("...");
    }
    let mut suffix = String::from_str(" (");
    let cs = u64_string(cores as u64);
    suffix.append(cs.as_str());
    suffix.append(" cores)");
    proof {
        assert(suffix@ =~= cores_suffix(cores as nat));
    }
    let suffix_len: usize = suffix.as_str().unicode_len();
    let after_prefix: usize = if info_cols > 5 {
        info_cols - 5
    } else {
        0
    };
    let avail: usize = if after_prefix > suffix_len {
        after_prefix - suffix_len
    } else {
        0
    };
    let budget: usize = if avail > 4 {
        avail
    } else {
        4
    };
    proof {
        assert(budget as nat == cpu_budget(info_cols as nat, cores as nat));
    }
    let cpu_len: usize = cpu.unicode_len();
    let mut out: String;
    if cpu_len > budget {
        let head = cpu.substring_char(0, budget - 3);
        out = head.to_owned();
        out.append("...");
        proof {
            assert(cpu@.subrange(0, budget - 3) =~= cpu@.take(budget - 3));
        }
    } else {
        out = cpu.to_owned();
    }
    out.append(suffix.as_str());
    proof {
        assert(out@ =~= cpu_line_text(cpu@, info_cols as nat, cores as nat));
    }
    out
}

/// How many columns remain beside the info block on a `term_cols`-wide
/// terminal, two separator columns included.
pub open spec fn columns_beside_info(term_cols: int, max_info_width: int) -> int {
    if term_cols > max_info_width + 2 {
        term_cols - (max_info_width + 2)
    } else {
        0
    }
}

pub const MIN_IMAGE_WIDTH: usize = 10;

pub const MAX_IMAGE_WIDTH: usize = 40;

/// The raster width the engine asks for: the room beside the info block,
/// clamped to at most [`MAX_IMAGE_WIDTH`]; nothing when under
/// [`MIN_IMAGE_WIDTH`].
pub open spec fn raster_width_for(term_cols: int, max_info_width: int) -> Option<usize> {
    let avail = columns_beside_info(term_cols, max_info_width);
    if avail >= MIN_IMAGE_WIDTH {
        if avail < MAX_IMAGE_WIDTH {
            Some(avail as usize)
        } else {
            Some(MAX_IMAGE_WIDTH)
        }
    } else {
        None
    }
}

/// Law: a terminal too narrow to leave [`MIN_IMAGE_WIDTH`] columns beside the
/// info block never gets a raster attempt.
pub proof fn lemma_narrow_terminal_never_rasters(term_cols: int, max_info_width: int)
    requires
        term_cols - (max_info_width + 2) < MIN_IMAGE_WIDTH,
    ensures
        raster_width_for(term_cols, max_info_width) is None,
{
}

/// Decides whether the raster path may be attempted, and at what width.
pub fn plan_raster(term_cols: usize, max_info_width: usize) -> (r: Option<usize>)
    ensures
        r == raster_width_for(term_cols as int, max_info_width as int),
{
    let avail: usize = if term_cols > max_info_width && term_cols - max_info_width > 2 {
        term_cols - max_info_width - 2
    } else {
        0
    };
    if avail >= MIN_IMAGE_WIDTH {
        if avail < MAX_IMAGE_WIDTH {
            Some(avail)
        } else {
            Some(MAX_IMAGE_WIDTH)
        }
    } else {
        None
    }
}

/// The column where overlaid text starts beside a printed image of
/// `image_width` cells: two columns past the image, capped at the terminal's
/// width and at what a cursor column can address.
pub open spec fn text_offset_for(image_width: int, term_cols: int) -> int {
    let off = if image_width + 2 < term_cols {
        image_width + 2
    } else {
        term_cols
    };
    if off < 65535 {
        off
    } else {
        65535
    }
}

/// Computes the text column used beside a printed image.
pub fn text_offset(image_width: u32, term_cols: usize) -> (r: u16)
    ensures
        r == text_offset_for(image_width as int, term_cols as int),
{
    let wide: u64 = (image_width as u64) + 2;
    let cols: u64 = term_cols as u64;
    let off: u64 = if wide < cols {
        wide
    } else {
        cols
    };
    if off < 65535 {
        off as u16
    } else {
        65535
    }
}

} // verus!

//! The render engine: building the info column, and laying it out beside the
//! mascot on the text fallback path or the raster overlay path.
use crate::art::art_rows;
use crate::facts::SysInfo;
use crate::format::bar_color;
use crate::format::bar_text;
use crate::format::bytes_text;
use crate::format::format_bytes;
use crate::format::format_uptime;
use crate::format::percentage_of;
use crate::format::progress_bar;
use crate::format::repeat_char;
use crate::format::uptime_text;
use crate::layout::compose_lines;
use crate::layout::composed;
use crate::layout::cpu_line;
use crate::layout::cpu_line_text;
use crate::layout::raster_width_for;
use crate::layout::max_width_of;
use crate::layout::pad_right;
use crate::layout::padded;
use crate::layout::DisplayLine;
use crate::paint::paint;
use crate::paint::paint_outcome;
use crate::paint::visible_text;
use crate::theme::Theme;
use crate::theme::ThemeColor;
use vstd::prelude::*;

verus! {

/// The three presentation toggles taken from the command line.
#[derive(Clone, Copy, PartialEq, Eq, Structural, Debug)]
pub struct RenderOptions {
    pub no_color: bool,
    pub minimal: bool,
    pub no_art: bool,
}

/// The `user@host` title line.
pub open spec fn title_text(info: SysInfo) -> Seq<char> {
    info.username@ + "@"@ + info.hostname@
}

/// The separator under the title: one box-drawing dash per title character.
pub open spec fn sep_text(info: SysInfo) -> Seq<char> {
    repeat_char('─', title_text(info).len())
}

/// How a displayed string relates to its plain form: equal with colors off;
/// with colors on, whatever one paint call may produce.
pub open spec fn field_outcome(
    plain: Seq<char>,
    c: ThemeColor,
    bold: bool,
    no_color: bool,
    v: Seq<char>,
) -> bool {
    if no_color {
        v == plain
    } else {
        paint_outcome(plain, c, bold, v)
    }
}

/// `v` is the memory value built around the bar string `b`.
pub open spec fn mem_composed(info: SysInfo, b: Seq<char>, v: Seq<char>) -> bool {
    v == bytes_text(info.memory_used as nat) + " / "@ + bytes_text(info.memory_total as nat)
        + " "@ + b
}

/// What the ten-cell memory bar may look like under the given mode.
pub open spec fn bar_outcome(pct: nat, theme: Theme, no_color: bool, b: Seq<char>) -> bool {
    if no_color {
        b == bar_text(pct, 10)
    } else {
        paint_outcome(bar_text(pct, 10), bar_color(pct, theme), false, b)
    }
}

/// The memory value: used and total sizes, then the bar.
pub open spec fn mem_value_outcome(info: SysInfo, theme: Theme, no_color: bool, v: Seq<char>) -> bool {
    exists|b: Seq<char>|
        #[trigger] mem_composed(info, b, v) && bar_outcome(
            percentage_of(info.memory_used as nat, info.memory_total as nat),
            theme,
            no_color,
            b,
        )
}

/// One palette cell: three block glyphs.
pub open spec fn crab_block() -> Seq<char> {
    "███"@
}

/// All of `cells`, joined in order.
pub open spec fn concat_all(cells: Seq<Seq<char>>) -> Seq<char>
    decreases cells.len(),
{
    if cells.len() == 0 {
        Seq::empty()
    } else {
        concat_all(cells.drop_last()) + cells.last()
    }
}

/// `v` is the concatenation of one painted block per color in `cs`, in order.
pub open spec fn palette_row(v: Seq<char>, cs: Seq<ThemeColor>) -> bool {
    exists|cells: Seq<Seq<char>>|
        {
            &&& #[trigger] concat_all(cells) == v
            &&& cells.len() == cs.len()
            &&& forall|k: int|
                0 <= k < cs.len() ==> paint_outcome(crab_block(), cs[k], false, #[trigger] cells[k])
        }
}

/// The eight normal ANSI colors, in palette order.
pub open spec fn normal_palette() -> Seq<ThemeColor> {
    seq![
        ThemeColor::Black,
        ThemeColor::Red,
        ThemeColor::Green,
        ThemeColor::Yellow,
        ThemeColor::Blue,
        ThemeColor::Magenta,
        ThemeColor::Cyan,
        ThemeColor::White,
    ]
}

/// The eight bright ANSI colors, in palette order.
pub open spec fn bright_palette() -> Seq<ThemeColor> {
    seq![
        ThemeColor::BrightBlack,
        ThemeColor::BrightRed,
        ThemeColor::BrightGreen,
        ThemeColor::BrightYellow,
        ThemeColor::BrightBlue,
        ThemeColor::BrightMagenta,
        ThemeColor::BrightCyan,
        ThemeColor::BrightWhite,
    ]
}

/// How many info lines a mode produces: the six core lines and a trailing
/// blank, plus CPU and memory in full mode, plus the two palette rows when
/// colors are on.
pub open spec fn expected_line_count(opts: RenderOptions) -> nat {
    if opts.minimal {
        7
    } else if opts.no_color {
        9
    } else {
        11
    }
}

/// The whole info column: every line's label and value related to its plain
/// form under the mode's toggles.
pub open spec fn info_lines_ok(
    info: SysInfo,
    opts: RenderOptions,
    theme: Theme,
    info_cols: nat,
    lines: Seq<DisplayLine>,
) -> bool {
    let nc = opts.no_color;
    &&& lines.len() == expected_line_count(opts)
    &&& lines[0].label@ == Seq::<char>::empty()
    &&& field_outcome(title_text(info), theme.primary, true, nc, lines[0].value@)
    &&& lines[1].label@ == Seq::<char>::empty()
    &&& field_outcome(sep_text(info), theme.secondary, false, nc, lines[1].value@)
    &&& field_outcome("OS"@, theme.primary, true, nc, lines[2].label@)
    &&& field_outcome(info.os@, theme.info, false, nc, lines[2].value@)
    &&& field_outcome("Kernel"@, theme.primary, true, nc, lines[3].label@)
    &&& field_outcome(info.kernel@, theme.info, false, nc, lines[3].value@)
    &&& field_outcome("Uptime"@, theme.primary, true, nc, lines[4].label@)
    &&& field_outcome(uptime_text(info.uptime_seconds as nat), theme.info, false, nc, lines[4].value@)
    &&& field_outcome("Shell"@, theme.primary, true, nc, lines[5].label@)
    &&& field_outcome(info.shell@, theme.info, false, nc, lines[5].value@)
    &&& (opts.minimal ==> lines[6].label@ == Seq::<char>::empty() && lines[6].value@
        == Seq::<char>::empty())
    &&& (!opts.minimal ==> {
        &&& field_outcome("CPU"@, theme.primary, true, nc, lines[6].label@)
        &&& field_outcome(
            cpu_line_text(info.cpu@, info_cols, info.cpu_cores as nat),
            theme.info,
            false,
            nc,
            lines[6].value@,
        )
        &&& field_outcome("Memory"@, theme.primary, true, nc, lines[7].label@)
        &&& mem_value_outcome(info, theme, nc, lines[7].value@)
        &&& lines[8].label@ == Seq::<char>::empty()
        &&& lines[8].value@ == Seq::<char>::empty()
        &&& (!nc ==> {
            &&& lines[9].label@ == Seq::<char>::empty()
            &&& palette_row(lines[9].value@, normal_palette())
            &&& lines[10].label@ == Seq::<char>::empty()
            &&& palette_row(lines[10].value@, bright_palette())
        })
    })
}

/// The width left for the info column: the whole terminal without art, else
/// what remains beside the art block and its two separator columns.
pub open spec fn info_cols_for(opts: RenderOptions, term_cols: int) -> int {
    if opts.no_art {
        term_cols
    } else {
        let aw = max_width_of(art_rows(opts.minimal)) + 2;
        if term_cols > aw {
            term_cols - aw
        } else {
            0
        }
    }
}

/// The engine's plan for one run: the composed info lines, and the width to
/// rasterize at, when the raster path is to be attempted at all.
pub struct RenderPlan {
    pub lines: Vec<String>,
    pub raster_max_width: Option<usize>,
}

/// Whether a plan's lines compose an info column built for these inputs.
pub open spec fn plan_lines_ok(
    info: SysInfo,
    opts: RenderOptions,
    theme: Theme,
    term_cols: int,
    lines: Seq<String>,
) -> bool {
    exists|pairs: Seq<DisplayLine>|
        {
            &&& #[trigger] info_lines_ok(
                info,
                opts,
                theme,
                info_cols_for(opts, term_cols) as nat,
                pairs,
            )
            &&& lines.len() == pairs.len()
            &&& forall|i: int|
                0 <= i < pairs.len() ==> #[trigger] lines[i]@ == composed(
                    pairs[i].label@,
                    pairs[i].value@,
                )
        }
}

/// Builds the whole render plan: the info column, and the raster decision
/// made from the terminal's width and the column's measured width. Art
/// suppression and minimal mode always force the text path.
pub fn plan_info(info: &SysInfo, opts: &RenderOptions, theme: &Theme, term_cols: usize) -> (p:
    RenderPlan)
    ensures
        plan_lines_ok(*info, *opts, *theme, term_cols as int, p.lines@),
        p.raster_max_width == (if !opts.no_art && !opts.minimal {
            raster_width_for(term_cols as int, max_width_of(p.lines.deep_view()) as int)
        } else {
            None::<usize>
        }),
{
    let art = crate::art::art_lines(opts.minimal);
    proof {
        assert(art.deep_view() =~= art_rows(opts.minimal));
    }
    let art_w = crate::layout::max_art_width(&art);
    let info_cols: usize = if opts.no_art {
        term_cols
    } else if term_cols > art_w && term_cols - art_w > 2 {
        term_cols - art_w - 2
    } else {
        0
    };
    let pairs = build_lines(info, opts, theme, info_cols);
    let lines = compose_lines(&pairs);
    proof {
        assert(info_cols as int == info_cols_for(*opts, term_cols as int));
        assert(info_lines_ok(
            *info,
            *opts,
            *theme,
            info_cols_for(*opts, term_cols as int) as nat,
            pairs@,
        ));
    }
    let max_info_width = crate::layout::max_line_width(&lines);
    let raster_max_width: Option<usize> = if !opts.no_art && !opts.minimal {
        crate::layout::plan_raster(term_cols, max_info_width)
    } else {
        None
    };
    RenderPlan { lines, raster_max_width }
}

/// The plain (uncolored) art cell shown in fallback row `i`: the art line, or
/// a blank once the art is exhausted, padded to the art block's width.
pub open spec fn fallback_art_plain(minimal: bool, i: int) -> Seq<char> {
    let art = art_rows(minimal);
    let w = max_width_of(art);
    padded(
        if i < art.len() {
            art[i]
        } else {
            Seq::empty()
        },
        w,
    )
}

/// The info part of fallback row `i`: the composed line, or nothing once the
/// lines are exhausted.
pub open spec fn fallback_info_part(lines: Seq<Seq<char>>, i: int) -> Seq<char> {
    if i < lines.len() {
        lines[i]
    } else {
        Seq::empty()
    }
}

/// What fallback row `i` may hold: the info part alone without art; otherwise
/// a painted art cell, two spaces, and the info part.
pub open spec fn fallback_row_ok(
    opts: RenderOptions,
    theme: Theme,
    lines: Seq<Seq<char>>,
    i: int,
    row: Seq<char>,
) -> bool {
    if opts.no_art {
        row == fallback_info_part(lines, i)
    } else {
        exists|cell: Seq<char>|
            {
                &&& #[trigger] field_outcome(
                    fallback_art_plain(opts.minimal, i),
                    theme.primary,
                    false,
                    opts.no_color,
                    cell,
                )
                &&& row == cell + "  "@ + fallback_info_part(lines, i)
            }
    }
}

/// Lays the composed info lines out beside the art block, row by row: the
/// guaranteed text path. The row count is the larger of the art's and the
/// lines' (so the two columns stay aligned), also when the art is hidden.
pub fn fallback_rows(lines: &Vec<String>, opts: &RenderOptions, theme: &Theme) -> (r: Vec<String>)
    ensures
        r@.len() == (if art_rows(opts.minimal).len() > lines@.len() {
            art_rows(opts.minimal).len()
        } else {
            lines@.len()
        }),
        forall|i: int|
            0 <= i < r@.len() ==> fallback_row_ok(*opts, *theme, lines.deep_view(), i, r@[i]@),
{
    let art = crate::art::art_lines(opts.minimal);
    proof {
        assert(art.deep_view() =~= art_rows(opts.minimal));
    }
    let art_w = crate::layout::max_art_width(&art);
    let rows: usize = if art.len() > lines.len() {
        art.len()
    } else {
        lines.len()
    };
    let mut out: Vec<String> = Vec::new();
    let mut i: usize = 0;
    while i < rows
        invariant
            rows == (if art@.len() > lines@.len() {
                art@.len()
            } else {
                lines@.len()
            }),
            art.deep_view() == art_rows(opts.minimal),
            art_w == max_width_of(art_rows(opts.minimal)),
            i <= rows,
            out@.len() == i,
            forall|j: int|
                0 <= j < i ==> fallback_row_ok(*opts, *theme, lines.deep_view(), j, out@[j]@),
        decreases rows - i,
    {
        let mut row = String::new();
        if !opts.no_art {
            let base: &str = if i < art.len() {
                art[i]
            } else {
                ""
            };
            proof {
                reveal_strlit("");
                assert(base@ == (if i < art_rows(opts.minimal).len() {
                    art_rows(opts.minimal)[i as int]
                } else {
                    Seq::<char>::empty()
                }));
            }
            let padded_cell = pad_right(base, art_w);
            let cell = if opts.no_color {
                padded_cell
            } else {
                paint(padded_cell.as_str(), theme.primary, false)
            };
            row.append(cell.as_str());
            row.append("  ");
            if i < lines.len() {
                row.append(lines[i].as_str());
            }
            proof {
                assert(field_outcome(
                    fallback_art_plain(opts.minimal, i as int),
                    theme.primary,
                    false,
                    opts.no_color,
                    cell@,
                ));
                assert(row@ =~= cell@ + "  "@ + fallback_info_part(lines.deep_view(), i as int));
                assert(fallback_row_ok(*opts, *theme, lines.deep_view(), i as int, row@));
            }
        } else {
            if i < lines.len() {
                row.append(lines[i].as_str());
            }
            proof {
                assert(row@ =~= fallback_info_part(lines.deep_view(), i as int));
            }
        }
        out.push(row);
        i = i + 1;
    }
    out
}

/// Law: with the same facts, theme and width, turning colors on adds only
/// the color-only palette rows and changes nothing visible elsewhere: every
/// row both modes share has the same visible text in label and value once
/// escape sequences are stripped.
pub proof fn lemma_color_mode_changes_only_escapes(
    info: SysInfo,
    opts: RenderOptions,
    theme: Theme,
    info_cols: nat,
    colored_lines: Seq<DisplayLine>,
    plain_lines: Seq<DisplayLine>,
)
    requires
        !opts.no_color,
        info_lines_ok(info, opts, theme, info_cols, colored_lines),
        info_lines_ok(
            info,
            RenderOptions { no_color: true, minimal: opts.minimal, no_art: opts.no_art },
            theme,
            info_cols,
            plain_lines,
        ),
    ensures
        plain_lines.len() <= colored_lines.len(),
        forall|i: int|
            0 <= i < plain_lines.len() ==> visible_text(#[trigger] plain_lines[i].label@)
                == visible_text(colored_lines[i].label@) && visible_text(plain_lines[i].value@)
                == visible_text(colored_lines[i].value@),
{
    assert forall|i: int|
        0 <= i < plain_lines.len() implies visible_text(#[trigger] plain_lines[i].label@)
        == visible_text(colored_lines[i].label@) && visible_text(plain_lines[i].value@)
        == visible_text(colored_lines[i].value@) by {
        if !opts.minimal && i == 7 {
            let pct = percentage_of(info.memory_used as nat, info.memory_total as nat);
            let vc = colored_lines[7].value@;
            let vp = plain_lines[7].value@;
            let bc = choose|b: Seq<char>|
                #[trigger] mem_composed(info, b, vc) && bar_outcome(pct, theme, false, b);
            let bp = choose|b: Seq<char>|
                #[trigger] mem_composed(info, b, vp) && bar_outcome(pct, theme, true, b);
            let prefix = bytes_text(info.memory_used as nat) + " / "@ + bytes_text(
                info.memory_total as nat,
            ) + " "@;
            reveal_strlit(" / ");
            reveal_strlit(" ");
            crate::format::lemma_bytes_text_escape_free(info.memory_used as nat);
            crate::format::lemma_bytes_text_escape_free(info.memory_total as nat);
            crate::paint::lemma_escape_free_concat(bytes_text(info.memory_used as nat), " / "@);
            crate::paint::lemma_escape_free_concat(
                bytes_text(info.memory_used as nat) + " / "@,
                bytes_text(info.memory_total as nat),
            );
            crate::paint::lemma_escape_free_concat(
                bytes_text(info.memory_used as nat) + " / "@ + bytes_text(
                    info.memory_total as nat,
                ),
                " "@,
            );
            crate::paint::lemma_visible_text_concat_left(prefix, bc);
            crate::paint::lemma_visible_text_concat_left(prefix, bp);
            assert(visible_text(bc) == visible_text(bar_text(pct, 10)));
            assert(bp == bar_text(pct, 10));
            assert(visible_text(vc) == prefix + visible_text(bar_text(pct, 10)));
            assert(visible_text(vp) == prefix + visible_text(bar_text(pct, 10)));
        }
    }
}

/// A labeled fact row, label in the primary color and bold, value in the info
/// color.
fn fact_line(label: &str, value: &str, theme: &Theme, no_color: bool) -> (r: DisplayLine)
    ensures
        field_outcome(label@, theme.primary, true, no_color, r.label@),
        field_outcome(value@, theme.info, false, no_color, r.value@),
{
    let l = if no_color {
        label.to_owned()
    } else {
        paint(label, theme.primary, true)
    };
    let v = if no_color {
        value.to_owned()
    } else {
        paint(value, theme.info, false)
    };
    DisplayLine { label: l, value: v }
}

/// One palette row: a painted three-block cell per color.
fn palette_line(colors: &Vec<ThemeColor>, theme: &Theme) -> (r: DisplayLine)
    ensures
        r.label@ == Seq::<char>::empty(),
        palette_row(r.value@, colors@),
{
    let n = colors.len();
    let mut row = String::new();
    let ghost mut cells: Seq<Seq<char>> = Seq::empty();
    let mut i: usize = 0;
    while i < n
        invariant
            n == colors@.len(),
            i <= n,
            cells.len() == i,
            concat_all(cells) == row@,
            forall|k: int|
                0 <= k < i ==> paint_outcome(crab_block(), colors@[k], false, #[trigger] cells[k]),
        decreases n - i,
    {
        let ghost prev_cells = cells;
        let b = paint("███", colors[i], false);
        row.append(b.as_str());
        proof {
            cells = cells.push(b@);
            assert(cells.drop_last() =~= prev_cells);
            assert(cells.last() == b@);
            assert(concat_all(cells) == row@);
        }
        i = i + 1;
    }
    proof {
        assert(colors@ =~= colors@.take(n as int));
        assert(palette_row(row@, colors@));
    }
    DisplayLine { label: String::new(), value: row }
}

/// One cursor or output step of the raster overlay: the engine plans these,
/// and a single writer executes them in order against the real terminal.
#[derive(Clone, Debug, PartialEq)]
pub enum TermCmd {
    /// Remember the current cursor position.
    Save,
    /// Return the cursor to the remembered position.
    Restore,
    /// Move the cursor down this many rows.
    Down(u16),
    /// Move the cursor to this column.
    Col(u16),
    /// Write this text, then end the line.
    WriteLine(String),
    /// End the line with nothing on it.
    Newline,
}

/// A row index clamped to what a cursor move can address.
pub open spec fn row_clamped(i: int) -> int {
    if i < 65535 {
        i
    } else {
        65535
    }
}

/// The commands that place line `i` beside the image: return to the anchor,
/// drop `i` rows, move to the text column, write.
pub open spec fn line_cmds(lines: Seq<String>, offset: u16, i: int) -> Seq<TermCmd> {
    if i == 0 {
        seq![TermCmd::Restore, TermCmd::Col(offset), TermCmd::WriteLine(lines[0])]
    } else {
        seq![
            TermCmd::Restore,
            TermCmd::Down(row_clamped(i) as u16),
            TermCmd::Col(offset),
            TermCmd::WriteLine(lines[i]),
        ]
    }
}

/// The anchor setup followed by the commands for the first `k` lines.
pub open spec fn overlay_prefix(lines: Seq<String>, offset: u16, k: int) -> Seq<TermCmd>
    decreases k,
{
    if k <= 0 {
        seq![TermCmd::Col(0), TermCmd::Save]
    } else {
        overlay_prefix(lines, offset, k - 1) + line_cmds(lines, offset, k - 1)
    }
}

/// How many rows the cursor finally drops below the anchor: the taller of the
/// image and the line block, clamped to a cursor move's range.
pub open spec fn final_height_of(art_height: int, line_count: int) -> int {
    row_clamped(
        if art_height > line_count {
            art_height
        } else {
            line_count
        },
    )
}

/// The whole overlay plan: anchor, one placement per line, then a move to
/// just below the taller column and a closing newline.
pub open spec fn overlay_cmds(lines: Seq<String>, offset: u16, art_height: int) -> Seq<TermCmd> {
    overlay_prefix(lines, offset, lines.len() as int) + seq![
        TermCmd::Restore,
        TermCmd::Down(final_height_of(art_height, lines.len() as int) as u16),
        TermCmd::Col(0),
        TermCmd::Newline,
    ]
}

/// How many lines of text a command sequence writes.
pub open spec fn write_count(cmds: Seq<TermCmd>) -> nat
    decreases cmds.len(),
{
    if cmds.len() == 0 {
        0
    } else {
        write_count(cmds.drop_last()) + (if cmds.last() matches TermCmd::WriteLine(_) {
            1nat
        } else {
            0nat
        })
    }
}

proof fn lemma_write_count_concat(a: Seq<TermCmd>, b: Seq<TermCmd>)
    ensures
        write_count(a + b) == write_count(a) + write_count(b),
    decreases b.len(),
{
    if b.len() == 0 {
        assert(a + b =~= a);
    } else {
        assert((a + b).drop_last() =~= a + b.drop_last());
        assert((a + b).last() == b.last());
        lemma_write_count_concat(a, b.drop_last());
    }
}

proof fn lemma_overlay_prefix_write_count(lines: Seq<String>, offset: u16, k: int)
    requires
        0 <= k <= lines.len(),
    ensures
        write_count(overlay_prefix(lines, offset, k)) == k,
    decreases k,
{
    reveal_with_fuel(write_count, 6);
    if k == 0 {
        let p = overlay_prefix(lines, offset, 0);
        assert(p.drop_last() =~= seq![TermCmd::Col(0)]);
        assert(p.drop_last().drop_last() =~= Seq::<TermCmd>::empty());
    } else {
        lemma_overlay_prefix_write_count(lines, offset, k - 1);
        lemma_write_count_concat(overlay_prefix(lines, offset, k - 1), line_cmds(lines, offset, k - 1));
        let lc = line_cmds(lines, offset, k - 1);
        if k == 1 {
            assert(lc.drop_last() =~= seq![TermCmd::Restore, TermCmd::Col(offset)]);
            assert(lc.drop_last().drop_last() =~= seq![TermCmd::Restore]);
            assert(lc.drop_last().drop_last().drop_last() =~= Seq::<TermCmd>::empty());
        } else {
            assert(lc.drop_last() =~= seq![
                TermCmd::Restore,
                TermCmd::Down(row_clamped(k - 1) as u16),
                TermCmd::Col(offset),
            ]);
            assert(lc.drop_last().drop_last() =~= seq![
                TermCmd::Restore,
                TermCmd::Down(row_clamped(k - 1) as u16),
            ]);
            assert(lc.drop_last().drop_last().drop_last() =~= seq![TermCmd::Restore]);
            assert(lc.drop_last().drop_last().drop_last().drop_last() =~= Seq::<TermCmd>::empty());
        }
    }
}

/// Law: the overlay plan writes exactly one line of text per display line,
/// closes with a single blank line, and its last cursor drop below the anchor
/// is the taller of the image and the line block — exactly that maximum
/// whenever both heights fit a cursor move, and the clamp otherwise.
pub proof fn lemma_overlay_row_alignment(lines: Seq<String>, offset: u16, art_height: int)
    ensures
        write_count(overlay_cmds(lines, offset, art_height)) == lines.len(),
        overlay_cmds(lines, offset, art_height).last() == TermCmd::Newline,
        ({
            let cmds = overlay_cmds(lines, offset, art_height);
            cmds[cmds.len() - 3] == TermCmd::Down(
                final_height_of(art_height, lines.len() as int) as u16,
            )
        }),
        0 <= art_height < 65536 && lines.len() < 65536 ==> final_height_of(
            art_height,
            lines.len() as int,
        ) == (if art_height > lines.len() {
            art_height
        } else {
            lines.len() as int
        }),
{
    reveal_with_fuel(write_count, 6);
    let tail = seq![
        TermCmd::Restore,
        TermCmd::Down(final_height_of(art_height, lines.len() as int) as u16),
        TermCmd::Col(0),
        TermCmd::Newline,
    ];
    lemma_overlay_prefix_write_count(lines, offset, lines.len() as int);
    lemma_write_count_concat(overlay_prefix(lines, offset, lines.len() as int), tail);
    assert(tail.drop_last() =~= seq![
        TermCmd::Restore,
        TermCmd::Down(final_height_of(art_height, lines.len() as int) as u16),
        TermCmd::Col(0),
    ]);
    assert(tail.drop_last().drop_last() =~= seq![
        TermCmd::Restore,
        TermCmd::Down(final_height_of(art_height, lines.len() as int) as u16),
    ]);
    assert(tail.drop_last().drop_last().drop_last() =~= seq![TermCmd::Restore]);
    assert(tail.drop_last().drop_last().drop_last().drop_last() =~= Seq::<TermCmd>::empty());
}

/// Plans the cursor work that overlays the info lines beside a printed image
/// of `art_height` rows, with text starting at column `offset`.
pub fn overlay_commands(lines: &Vec<String>, offset: u16, art_height: u32) -> (r: Vec<TermCmd>)
    ensures
        r@ == overlay_cmds(lines@, offset, art_height as int),
{
    let mut r: Vec<TermCmd> = Vec::new();
    r.push(TermCmd::Col(0));
    r.push(TermCmd::Save);
    proof {
        assert(r@ =~= overlay_prefix(lines@, offset, 0));
    }
    let n = lines.len();
    let mut i: usize = 0;
    while i < n
        invariant
            n == lines@.len(),
            i <= n,
            r@ == overlay_prefix(lines@, offset, i as int),
        decreases n - i,
    {
        r.push(TermCmd::Restore);
        if i > 0 {
            let d: u16 = if i < 65535 {
                i as u16
            } else {
                65535
            };
            r.push(TermCmd::Down(d));
        }
        r.push(TermCmd::Col(offset));
        r.push(TermCmd::WriteLine(lines[i].clone()));
        proof {
            assert(r@ =~= overlay_prefix(lines@, offset, i as int) + line_cmds(
                lines@,
                offset,
                i as int,
            ));
        }
        i = i + 1;
    }
    let lc = lines.len();
    let ah: u64 = art_height as u64;
    let taller: u64 = if ah > (lc as u64) {
        ah
    } else {
        lc as u64
    };
    let fh: u16 = if taller < 65535 {
        taller as u16
    } else {
        65535
    };
    r.push(TermCmd::Restore);
    r.push(TermCmd::Down(fh));
    r.push(TermCmd::Col(0));
    r.push(TermCmd::Newline);
    proof {
        assert(r@ =~= overlay_cmds(lines@, offset, art_height as int));
    }
    r
}

/// Builds the info column for the given facts, mode and theme; `info_cols` is
/// the width left for it beside the art.
pub fn build_lines(info: &SysInfo, opts: &RenderOptions, theme: &Theme, info_cols: usize) -> (r:
    Vec<DisplayLine>)
    ensures
        info_lines_ok(*info, *opts, *theme, info_cols as nat, r@),
{
    let nc = opts.no_color;
    let mut lines: Vec<DisplayLine> = Vec::new();

    // Title
    let mut title = info.username.clone();
    title.append("@");
    title.append(info.hostname.as_str());
    proof {
        assert(title@ =~= title_text(*info));
    }
    let tval = if nc {
        title.clone()
    } else {
        paint(title.as_str(), theme.primary, true)
    };
    lines.push(DisplayLine { label: String::new(), value: tval });

    // Separator
    let tlen: usize = title.as_str().unicode_len();
    let mut sep = String::new();
    let mut j: usize = 0;
    while j < tlen
        invariant
            j <= tlen,
            sep@ == repeat_char('─', j as nat),
        decreases tlen - j,
    {
        sep.append("─");
        j = j + 1;
        proof {
            reveal_strlit("─");
            assert(sep@ =~= repeat_char('─', j as nat));
        }
    }
    let sval = if nc {
        sep
    } else {
        paint(sep.as_str(), theme.secondary, false)
    };
    lines.push(DisplayLine { label: String::new(), value: sval });

    // Fact rows
    lines.push(fact_line("OS", info.os.as_str(), theme, nc));
    lines.push(fact_line("Kernel", info.kernel.as_str(), theme, nc));
    let up = format_uptime(info.uptime_seconds);
    lines.push(fact_line("Uptime", up.as_str(), theme, nc));
    lines.push(fact_line("Shell", info.shell.as_str(), theme, nc));

    if !opts.minimal {
        // CPU
        let cline = cpu_line(info.cpu.as_str(), info_cols, info.cpu_cores);
        lines.push(fact_line("CPU", cline.as_str(), theme, nc));

        // Memory
        proof {
            reveal_strlit(" / ");
            reveal_strlit(" ");
        }
        let mut mval = format_bytes(info.memory_used);
        mval.append(" / ");
        let tot = format_bytes(info.memory_total);
        mval.append(tot.as_str());
        mval.append(" ");
        let bar = progress_bar(info.memory_used, info.memory_total, 10, theme, nc);
        mval.append(bar.as_str());
        proof {
            assert(mval@ =~= bytes_text(info.memory_used as nat) + " / "@ + bytes_text(
                info.memory_total as nat,
            ) + " "@ + bar@);
            assert(mem_composed(*info, bar@, mval@));
        }
        let mlabel = if nc {
            String::from_str("Memory")
        } else {
            paint("Memory", theme.primary, true)
        };
        lines.push(DisplayLine { label: mlabel, value: mval });
    }

    // Blank row before the palette
    lines.push(DisplayLine { label: String::new(), value: String::new() });

    if !opts.minimal && !nc {
        let mut normal: Vec<ThemeColor> = Vec::new();
        normal.push(ThemeColor::Black);
        normal.push(ThemeColor::Red);
        normal.push(ThemeColor::Green);
        normal.push(ThemeColor::Yellow);
        normal.push(ThemeColor::Blue);
        normal.push(ThemeColor::Magenta);
        normal.push(ThemeColor::Cyan);
        normal.push(ThemeColor::White);
        proof {
            assert(normal@ =~= normal_palette());
        }
        lines.push(palette_line(&normal, theme));

        let mut bright: Vec<ThemeColor> = Vec::new();
        bright.push(ThemeColor::BrightBlack);
        bright.push(ThemeColor::BrightRed);
        bright.push(ThemeColor::BrightGreen);
        bright.push(ThemeColor::BrightYellow);
        bright.push(ThemeColor::BrightBlue);
        bright.push(ThemeColor::BrightMagenta);
        bright.push(ThemeColor::BrightCyan);
        bright.push(ThemeColor::BrightWhite);
        proof {
            assert(bright@ =~= bright_palette());
        }
        lines.push(palette_line(&bright, theme));
    }
    lines
}

} // verus!

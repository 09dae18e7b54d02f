use ferrisfetch::engine::fallback_rows;
use ferrisfetch::engine::overlay_commands;
use ferrisfetch::engine::plan_info;
use ferrisfetch::engine::RenderOptions;
use ferrisfetch::engine::TermCmd;
use ferrisfetch::facts::shell_from_path;
use ferrisfetch::facts::SysInfo;
use ferrisfetch::layout::cpu_line;
use ferrisfetch::layout::plan_raster;
use ferrisfetch::layout::text_offset;
use ferrisfetch::progress_bar;
use ferrisfetch::Theme;

fn sample_facts() -> SysInfo {
    SysInfo {
        hostname: String::from("box"),
        username: String::from("bob"),
        os: String::from("Linux 6.1"),
        kernel: String::from("6.1.0"),
        uptime_seconds: 3725,
        shell: String::from("bash"),
        cpu: String::from("Example CPU"),
        cpu_cores: 8,
        memory_used: 2147483648,
        memory_total: 4294967296,
    }
}

#[test]
fn shell_name_is_last_component() {
    assert_eq!(shell_from_path("/usr/bin/bash"), "bash");
    assert_eq!(shell_from_path("C:\\Windows\\cmd.exe"), "cmd.exe");
    assert_eq!(shell_from_path("zsh"), "zsh");
    assert_eq!(shell_from_path("/usr/bin/"), "");
}

#[test]
fn cpu_line_untouched_when_it_fits() {
    assert_eq!(cpu_line("Example CPU", 40, 8), "Example CPU (8 cores)");
}

#[test]
fn cpu_line_truncates_to_budget() {
    // info_cols 40, suffix " (8 cores)" is 10 wide, prefix 5: budget 25.
    let long = "ABCDEFGHIJKLMNOPQRSTUVWXYZ1234";
    let line = cpu_line(long, 40, 8);
    assert_eq!(line, "ABCDEFGHIJKLMNOPQRSTUV... (8 cores)");
    assert_eq!(line.chars().take_while(|c| *c != ' ').count(), 25);
}

#[test]
fn cpu_line_floors_budget_at_four() {
    // A 10-column info block leaves nothing, so the floor of 4 applies.
    assert_eq!(cpu_line("Intel", 10, 8), "I... (8 cores)");
}

#[test]
fn narrow_terminal_never_rasters() {
    // 30 - (25 + 2) = 3 columns beside the text: under the 10-column minimum.
    assert_eq!(plan_raster(30, 25), None);
    assert_eq!(plan_raster(0, 25), None);
    assert_eq!(plan_raster(36, 25), None);
}

#[test]
fn raster_width_clamps_at_forty() {
    assert_eq!(plan_raster(50, 20), Some(28));
    assert_eq!(plan_raster(100, 20), Some(40));
    assert_eq!(plan_raster(32, 20), Some(10));
}

#[test]
fn text_offset_leaves_two_columns() {
    assert_eq!(text_offset(20, 80), 22);
    assert_eq!(text_offset(100, 80), 80);
}

#[test]
fn overlay_plan_places_each_line() {
    let lines = vec![String::from("a"), String::from("b")];
    let cmds = overlay_commands(&lines, 5, 4);
    let expected = vec![
        TermCmd::Col(0),
        TermCmd::Save,
        TermCmd::Restore,
        TermCmd::Col(5),
        TermCmd::WriteLine(String::from("a")),
        TermCmd::Restore,
        TermCmd::Down(1),
        TermCmd::Col(5),
        TermCmd::WriteLine(String::from("b")),
        TermCmd::Restore,
        TermCmd::Down(4),
        TermCmd::Col(0),
        TermCmd::Newline,
    ];
    assert_eq!(cmds, expected);
}

#[test]
fn overlay_final_drop_covers_taller_text_column() {
    let lines = vec![
        String::from("a"),
        String::from("b"),
        String::from("c"),
    ];
    let cmds = overlay_commands(&lines, 2, 1);
    assert_eq!(cmds[cmds.len() - 3], TermCmd::Down(3));
}

#[test]
fn overlay_plan_with_no_lines_still_closes() {
    let lines: Vec<String> = Vec::new();
    let cmds = overlay_commands(&lines, 5, 2);
    let expected = vec![
        TermCmd::Col(0),
        TermCmd::Save,
        TermCmd::Restore,
        TermCmd::Down(2),
        TermCmd::Col(0),
        TermCmd::Newline,
    ];
    assert_eq!(cmds, expected);
}

#[test]
fn color_mode_appends_two_palette_rows() {
    colored::control::set_override(true);
    let opts = RenderOptions { no_color: false, minimal: false, no_art: true };
    let theme = Theme::get("mono");
    let info = sample_facts();
    let plan = plan_info(&info, &opts, &theme, 120);
    assert_eq!(plan.lines.len(), 11);
    let palette = &plan.lines[9];
    assert!(palette.starts_with("\u{1b}[30m███\u{1b}[0m"));
    assert_eq!(palette.matches("███").count(), 8);
    let bright = &plan.lines[10];
    assert!(bright.starts_with("\u{1b}[90m███\u{1b}[0m"));
    assert_eq!(bright.matches("███").count(), 8);
}

#[test]
fn fallback_row_count_is_the_taller_column() {
    let opts = RenderOptions { no_color: true, minimal: true, no_art: false };
    let theme = Theme::get("mono");
    let lines = vec![String::from("one"), String::from("two")];
    // Minimal art is 3 rows tall, so 3 rows come out.
    let rows = fallback_rows(&lines, &opts, &theme);
    assert_eq!(rows.len(), 3);

    let seven: Vec<String> = (0..7).map(|i| format!("line {i}")).collect();
    let rows = fallback_rows(&seven, &opts, &theme);
    assert_eq!(rows.len(), 7);
}

#[test]
fn fallback_rows_keep_art_column_aligned() {
    let opts = RenderOptions { no_color: true, minimal: true, no_art: false };
    let theme = Theme::get("mono");
    let lines = vec![String::from("one"), String::from("two")];
    let rows = fallback_rows(&lines, &opts, &theme);
    assert_eq!(rows[0], "   _~^~_     one");
    assert_eq!(rows[1], " \\)/o o\\(/   two");
    assert_eq!(rows[2], "  '- ^ -'    ");
}

#[test]
fn no_art_rows_hold_the_lines_alone() {
    let opts = RenderOptions { no_color: true, minimal: true, no_art: true };
    let theme = Theme::get("mono");
    let lines = vec![String::from("one"), String::from("two")];
    let rows = fallback_rows(&lines, &opts, &theme);
    assert_eq!(rows, vec![String::from("one"), String::from("two"), String::new()]);
}

#[test]
fn minimal_no_color_no_art_end_to_end() {
    let opts = RenderOptions { no_color: true, minimal: true, no_art: true };
    let theme = Theme::get("rust");
    let info = sample_facts();
    let plan = plan_info(&info, &opts, &theme, 80);
    assert_eq!(plan.raster_max_width, None);
    let rows = fallback_rows(&plan.lines, &opts, &theme);
    let non_empty: Vec<&String> = rows.iter().filter(|r| !r.is_empty()).collect();
    assert_eq!(non_empty.len(), 6);
    assert_eq!(rows[0], "bob@box");
    assert_eq!(rows[1], "───────");
    assert_eq!(rows[2], "OS: Linux 6.1");
    assert_eq!(rows[3], "Kernel: 6.1.0");
    assert_eq!(rows[4], "Uptime: 1h 2m");
    assert_eq!(rows[5], "Shell: bash");
    for row in &rows {
        assert!(!row.contains('\u{1b}'));
        assert!(!row.contains('~'));
    }
}

#[test]
fn full_mode_shows_cpu_and_memory() {
    let opts = RenderOptions { no_color: true, minimal: false, no_art: true };
    let theme = Theme::get("rust");
    let info = sample_facts();
    let plan = plan_info(&info, &opts, &theme, 120);
    assert_eq!(plan.lines.len(), 9);
    assert_eq!(plan.lines[6], "CPU: Example CPU (8 cores)");
    assert_eq!(plan.lines[7], "Memory: 2.0 GB / 4.0 GB [█████░░░░░] 50%");
}

#[test]
fn title_is_painted_bold_in_color_mode() {
    colored::control::set_override(true);
    let opts = RenderOptions { no_color: false, minimal: true, no_art: true };
    let theme = Theme::get("ocean");
    let info = sample_facts();
    let plan = plan_info(&info, &opts, &theme, 80);
    assert_eq!(plan.lines[0], "\u{1b}[1;36mbob@box\u{1b}[0m");
}

fn strip_escapes(s: &str) -> String {
    let mut out = String::new();
    let mut in_escape = false;
    for c in s.chars() {
        if in_escape {
            if c == 'm' {
                in_escape = false;
            }
        } else if c == '\u{1b}' {
            in_escape = true;
        } else {
            out.push(c);
        }
    }
    out
}

#[test]
fn colored_bar_shows_the_plain_bar_text() {
    colored::control::set_override(true);
    let theme = Theme::get("rust");
    let plain = progress_bar(30, 100, 10, &theme, true);
    let painted = progress_bar(30, 100, 10, &theme, false);
    assert_ne!(painted, plain);
    assert_eq!(strip_escapes(&painted), plain);
}

#[test]
fn color_mode_changes_only_escapes_in_shared_rows() {
    colored::control::set_override(true);
    let info = sample_facts();
    let theme = Theme::get("rust");
    let with_color = RenderOptions { no_color: false, minimal: false, no_art: true };
    let without = RenderOptions { no_color: true, minimal: false, no_art: true };
    let pc = plan_info(&info, &with_color, &theme, 120);
    let pp = plan_info(&info, &without, &theme, 120);
    assert_eq!(pc.lines.len(), 11);
    assert_eq!(pp.lines.len(), 9);
    for i in 0..pp.lines.len() {
        assert_eq!(strip_escapes(&pc.lines[i]), pp.lines[i]);
    }
}

#[test]
fn wide_terminal_requests_a_clamped_raster() {
    let opts = RenderOptions { no_color: true, minimal: false, no_art: false };
    let theme = Theme::get("rust");
    let info = sample_facts();
    let plan = plan_info(&info, &opts, &theme, 200);
    assert_eq!(plan.raster_max_width, Some(40));
    let narrow = plan_info(&info, &opts, &theme, 20);
    assert_eq!(narrow.raster_max_width, None);
}

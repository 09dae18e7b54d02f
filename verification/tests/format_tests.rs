use ferrisfetch::format_bytes;
use ferrisfetch::format_uptime;
use ferrisfetch::progress_bar;
use ferrisfetch::Theme;
use ferrisfetch::ThemeColor;

fn plain_theme() -> Theme {
    Theme {
        primary: ThemeColor::Cyan,
        secondary: ThemeColor::Blue,
        accent: ThemeColor::BrightCyan,
        info: ThemeColor::White,
    }
}

#[test]
fn uptime_zero_shows_minutes() {
    assert_eq!(format_uptime(0), "0m");
}

#[test]
fn uptime_under_two_minutes() {
    assert_eq!(format_uptime(90), "1m");
}

#[test]
fn uptime_hours_and_minutes() {
    assert_eq!(format_uptime(3661), "1h 1m");
}

#[test]
fn uptime_days_and_hours() {
    assert_eq!(format_uptime(90000), "1d 1h");
}

#[test]
fn uptime_days_only() {
    assert_eq!(format_uptime(86400), "1d");
}

#[test]
fn uptime_all_units() {
    assert_eq!(format_uptime(90060), "1d 1h 1m");
}

#[test]
fn uptime_never_empty_and_ends_in_unit() {
    for s in [0u64, 1, 59, 60, 3599, 3600, 86399, 86400, 123456789] {
        let text = format_uptime(s);
        assert!(!text.is_empty());
        let last = text.split(' ').next_back().unwrap();
        assert!(last.len() >= 2);
        let unit = last.chars().last().unwrap();
        assert!(unit == 'd' || unit == 'h' || unit == 'm');
        assert!(last[..last.len() - 1].chars().all(|c| c.is_ascii_digit()));
    }
}

#[test]
fn bytes_one_gigabyte() {
    assert_eq!(format_bytes(1073741824), "1.0 GB");
}

#[test]
fn bytes_one_megabyte() {
    assert_eq!(format_bytes(1048576), "1.0 MB");
}

#[test]
fn bytes_zero() {
    assert_eq!(format_bytes(0), "0.0 MB");
}

#[test]
fn bytes_half_gigabyte_stays_megabytes() {
    assert_eq!(format_bytes(536870912), "512.0 MB");
}

#[test]
fn bytes_three_and_a_half_gigabytes() {
    assert_eq!(format_bytes(3758096384), "3.5 GB");
}

#[test]
fn bytes_largest_count() {
    assert_eq!(format_bytes(u64::MAX), "17179869184.0 GB");
}

#[test]
fn bar_zero_width_keeps_percentage() {
    let bar = progress_bar(5, 10, 0, &plain_theme(), true);
    assert_eq!(bar, "[] 50%");
}

#[test]
fn bar_zero_total_is_zero_percent() {
    let bar = progress_bar(0, 0, 10, &plain_theme(), true);
    assert_eq!(bar, "[░░░░░░░░░░] 0%");
}

#[test]
fn bar_eighty_five_percent_filled_cells() {
    let bar = progress_bar(85, 100, 10, &plain_theme(), true);
    assert_eq!(bar, "[████████░░] 85%");
}

#[test]
fn bar_eighty_five_percent_is_red() {
    colored::control::set_override(true);
    let bar = progress_bar(85, 100, 10, &plain_theme(), false);
    assert_eq!(bar, "\u{1b}[31m[████████░░] 85%\u{1b}[0m");
    assert!(bar.contains("85%"));
}

#[test]
fn bar_seventy_percent_is_amber() {
    colored::control::set_override(true);
    let bar = progress_bar(70, 100, 10, &plain_theme(), false);
    assert_eq!(bar, "\u{1b}[33m[███████░░░] 70%\u{1b}[0m");
}

#[test]
fn bar_low_share_uses_accent() {
    colored::control::set_override(true);
    let bar = progress_bar(30, 100, 10, &plain_theme(), false);
    assert_eq!(bar, "\u{1b}[96m[███░░░░░░░] 30%\u{1b}[0m");
}

#[test]
fn bar_overfull_clamps_to_hundred() {
    let bar = progress_bar(500, 100, 10, &plain_theme(), true);
    assert_eq!(bar, "[██████████] 100%");
}

use ferrisfetch::Theme;
use ferrisfetch::ThemeColor;

#[test]
fn ocean_resolves() {
    let t = Theme::get("ocean");
    assert_eq!(t.primary, ThemeColor::Cyan);
    assert_eq!(t.secondary, ThemeColor::Blue);
    assert_eq!(t.accent, ThemeColor::BrightCyan);
    assert_eq!(t.info, ThemeColor::White);
}

#[test]
fn names_match_case_insensitively() {
    assert_eq!(Theme::get("OCEAN"), Theme::get("ocean"));
    assert_eq!(Theme::get("FoReSt"), Theme::get("forest"));
    assert_eq!(Theme::get("Sunset"), Theme::get("sunset"));
    assert_eq!(Theme::get("MONO"), Theme::get("mono"));
}

#[test]
fn forest_resolves() {
    let t = Theme::get("forest");
    assert_eq!(t.primary, ThemeColor::Green);
    assert_eq!(t.secondary, ThemeColor::BrightGreen);
    assert_eq!(t.accent, ThemeColor::Yellow);
}

#[test]
fn sunset_resolves() {
    let t = Theme::get("sunset");
    assert_eq!(t.primary, ThemeColor::Red);
    assert_eq!(t.secondary, ThemeColor::Yellow);
    assert_eq!(t.accent, ThemeColor::Magenta);
}

#[test]
fn mono_is_all_white() {
    let t = Theme::get("mono");
    assert_eq!(t.primary, ThemeColor::White);
    assert_eq!(t.secondary, ThemeColor::White);
    assert_eq!(t.accent, ThemeColor::White);
    assert_eq!(t.info, ThemeColor::White);
}

#[test]
fn unknown_names_fall_back_to_default() {
    let t = Theme::get("no such theme");
    assert_eq!(t.primary, ThemeColor::Rgb(255, 128, 0));
    assert_eq!(t.secondary, ThemeColor::Rgb(183, 65, 14));
    assert_eq!(t.accent, ThemeColor::Rgb(255, 200, 100));
    assert_eq!(t.info, ThemeColor::White);
}

#[test]
fn canonical_name_is_the_default() {
    assert_eq!(Theme::get("rust"), Theme::get("anything else"));
}

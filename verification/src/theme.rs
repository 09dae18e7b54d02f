//! Color palettes and the name-to-theme resolver.
use vstd::prelude::*;

verus! {

/// A terminal foreground color: one of the sixteen ANSI names, or a direct
/// 24-bit value.
#[derive(Clone, Copy, PartialEq, Eq, Structural, Debug)]
pub enum ThemeColor {
    Black,
    Red,
    Green,
    Yellow,
    Blue,
    Magenta,
    Cyan,
    White,
    BrightBlack,
    BrightRed,
    BrightGreen,
    BrightYellow,
    BrightBlue,
    BrightMagenta,
    BrightCyan,
    BrightWhite,
    Rgb(u8, u8, u8),
}

/// A four-slot palette: title and labels, separator, bar accent, values.
#[derive(Clone, Copy, PartialEq, Eq, Structural, Debug)]
pub struct Theme {
    pub primary: ThemeColor,
    pub secondary: ThemeColor,
    pub accent: ThemeColor,
    pub info: ThemeColor,
}

pub open spec fn lower_char(c: char) -> char {
    if 'A' <= c && c <= 'Z' {
        (((c as u8) + 32) as char)
    } else {
        c
    }
}

/// ASCII lowercasing of a character sequence; other characters are unchanged.
pub open spec fn ascii_lower(s: Seq<char>) -> Seq<char> {
    s.map_values(|c: char| lower_char(c))
}

pub open spec fn ocean_theme() -> Theme {
    Theme {
        primary: ThemeColor::Cyan,
        secondary: ThemeColor::Blue,
        accent: ThemeColor::BrightCyan,
        info: ThemeColor::White,
    }
}

pub open spec fn forest_theme() -> Theme {
    Theme {
        primary: ThemeColor::Green,
        secondary: ThemeColor::BrightGreen,
        accent: ThemeColor::Yellow,
        info: ThemeColor::White,
    }
}

pub open spec fn sunset_theme() -> Theme {
    Theme {
        primary: ThemeColor::Red,
        secondary: ThemeColor::Yellow,
        accent: ThemeColor::Magenta,
        info: ThemeColor::White,
    }
}

pub open spec fn mono_theme() -> Theme {
    Theme {
        primary: ThemeColor::White,
        secondary: ThemeColor::White,
        accent: ThemeColor::White,
        info: ThemeColor::White,
    }
}

/// The default palette, in the colors of the crab.
pub open spec fn default_theme() -> Theme {
    Theme {
        primary: ThemeColor::Rgb(255, 128, 0),
        secondary: ThemeColor::Rgb(183, 65, 14),
        accent: ThemeColor::Rgb(255, 200, 100),
        info: ThemeColor::White,
    }
}

/// The palette a theme name resolves to: the four known names, matched
/// without regard to ASCII case, and the default palette for every other name.
pub open spec fn theme_for(name: Seq<char>) -> Theme {
    if ascii_lower(name) == "ocean"@ {
        ocean_theme()
    } else if ascii_lower(name) == "forest"@ {
        forest_theme()
    } else if ascii_lower(name) == "sunset"@ {
        sunset_theme()
    } else if ascii_lower(name) == "mono"@ {
        mono_theme()
    } else {
        default_theme()
    }
}

fn lower_char_exec(c: char) -> (r: char)
    ensures
        r == lower_char(c),
{
    if 'A' <= c && c <= 'Z' {
        ((c as u8) + 32) as char
    } else {
        c
    }
}

/// Whether `s`, lowered ASCII-wise, equals `t` (a lowercase keyword).
fn eq_ascii_lower(s: &str, t: &str) -> (r: bool)
    ensures
        r == (ascii_lower(s@) == t@),
{
    let n: usize = s.unicode_len();
    if n != t.unicode_len() {
        proof {
            assert(ascii_lower(s@).len() == s@.len());
            assert(ascii_lower(s@) != t@);
        }
        return false;
    }
    let mut i: usize = 0;
    while i < n
        invariant
            n == s@.len(),
            n == t@.len(),
            i <= n,
            forall|j: int| 0 <= j < i ==> ascii_lower(s@)[j] == t@[j],
        decreases n - i,
    {
        let c = lower_char_exec(s.get_char(i));
        if c != t.get_char(i) {
            proof {
                assert(ascii_lower(s@)[i as int] != t@[i as int]);
                assert(ascii_lower(s@) != t@);
            }
            return false;
        }
        i = i + 1;
    }
    proof {
        assert(ascii_lower(s@) =~= t@);
    }
    true
}

impl Theme {
    /// Resolves a theme name; unknown names fall back to the default palette.
    pub fn get(name: &str) -> (t: Theme)
        ensures
            t == theme_for(name@),
    {
        if eq_ascii_lower(name, "ocean") {
            Theme {
                primary: ThemeColor::Cyan,
                secondary: ThemeColor::Blue,
                accent: ThemeColor::BrightCyan,
                info: ThemeColor::White,
            }
        } else if eq_ascii_lower(name, "forest") {
            Theme {
                primary: ThemeColor::Green,
                secondary: ThemeColor::BrightGreen,
                accent: ThemeColor::Yellow,
                info: ThemeColor::White,
            }
        } else if eq_ascii_lower(name, "sunset") {
            Theme {
                primary: ThemeColor::Red,
                secondary: ThemeColor::Yellow,
                accent: ThemeColor::Magenta,
                info: ThemeColor::White,
            }
        } else if eq_ascii_lower(name, "mono") {
            Theme {
                primary: ThemeColor::White,
                secondary: ThemeColor::White,
                accent: ThemeColor::White,
                info: ThemeColor::White,
            }
        } else {
            Theme {
                primary: ThemeColor::Rgb(255, 128, 0),
                secondary: ThemeColor::Rgb(183, 65, 14),
                accent: ThemeColor::Rgb(255, 200, 100),
                info: ThemeColor::White,
            }
        }
    }
}

} // verus!

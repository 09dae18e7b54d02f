//! The crab mascot as fixed text art, in a full and a minimal size.
use vstd::prelude::*;

verus! {

pub const FERRIS_ROW_0: &'static str = r"        _~^~^~_        ";

pub const FERRIS_ROW_1: &'static str = r"    \) /  o o  \ (/    ";

pub const FERRIS_ROW_2: &'static str = r"      '_   -   _'      ";

pub const FERRIS_ROW_3: &'static str = r"      / '-----' \      ";

pub const FERRIS_ROW_4: &'static str = r"     /           \     ";

pub const FERRIS_ROW_5: &'static str = r"    /  /       \  \    ";

pub const FERRIS_ROW_6: &'static str = r"   (  |         |  )   ";

pub const FERRIS_ROW_7: &'static str = r"    \_|         |_/    ";

pub const FERRIS_SMALL_ROW_0: &'static str = r"   _~^~_   ";

pub const FERRIS_SMALL_ROW_1: &'static str = r" \)/o o\(/ ";

pub const FERRIS_SMALL_ROW_2: &'static str = r"  '- ^ -'  ";

/// The full-size art, row by row.
pub open spec fn ferris_rows() -> Seq<Seq<char>> {
    seq![
        FERRIS_ROW_0@,
        FERRIS_ROW_1@,
        FERRIS_ROW_2@,
        FERRIS_ROW_3@,
        FERRIS_ROW_4@,
        FERRIS_ROW_5@,
        FERRIS_ROW_6@,
        FERRIS_ROW_7@,
    ]
}

/// The minimal-mode art, row by row.
pub open spec fn ferris_small_rows() -> Seq<Seq<char>> {
    seq![FERRIS_SMALL_ROW_0@, FERRIS_SMALL_ROW_1@, FERRIS_SMALL_ROW_2@]
}

/// The art block a mode selects: the small crab in minimal mode, the full
/// crab otherwise.
pub open spec fn art_rows(minimal: bool) -> Seq<Seq<char>> {
    if minimal {
        ferris_small_rows()
    } else {
        ferris_rows()
    }
}

/// The selected art block as displayable rows.
pub fn art_lines(minimal: bool) -> (r: Vec<&'static str>)
    ensures
        r@.len() == art_rows(minimal).len(),
        forall|i: int| 0 <= i < r@.len() ==> #[trigger] r@[i]@ == art_rows(minimal)[i],
{
    let mut v: Vec<&'static str> = Vec::new();
    if minimal {
        v.push(FERRIS_SMALL_ROW_0);
        v.push(FERRIS_SMALL_ROW_1);
        v.push(FERRIS_SMALL_ROW_2);
    } else {
        v.push(FERRIS_ROW_0);
        v.push(FERRIS_ROW_1);
        v.push(FERRIS_ROW_2);
        v.push(FERRIS_ROW_3);
        v.push(FERRIS_ROW_4);
        v.push(FERRIS_ROW_5);
        v.push(FERRIS_ROW_6);
        v.push(FERRIS_ROW_7);
    }
    v
}

} // verus!

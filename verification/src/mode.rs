//! The closed set of wallpaper display modes and its string form.

use vstd::prelude::*;
use crate::text::str_eq;

verus! {

/// A desktop-background display policy. The six variants map one-to-one to
/// the mode values of the OS-side wallpaper service.
#[derive(Copy, Clone, Debug, PartialEq, Eq, Structural)]
pub enum ModeOption {
    Center,
    Crop,
    Fit,
    Span,
    Stretch,
    Tile,
}

/// The canonical lowercase name of a mode, the only string form that
/// [`ModeOption::from_str`] accepts.
pub open spec fn mode_name(m: ModeOption) -> Seq<char> {
    match m {
        ModeOption::Center => "center"@,
        ModeOption::Crop => "crop"@,
        ModeOption::Fit => "fit"@,
        ModeOption::Span => "span"@,
        ModeOption::Stretch => "stretch"@,
        ModeOption::Tile => "tile"@,
    }
}

/// What parsing a mode string yields: the unique variant whose canonical
/// name the string equals, case-sensitively, or nothing.
pub open spec fn parse_mode(s: Seq<char>) -> Option<ModeOption> {
    if s == mode_name(ModeOption::Center) {
        Some(ModeOption::Center)
    } else if s == mode_name(ModeOption::Crop) {
        Some(ModeOption::Crop)
    } else if s == mode_name(ModeOption::Fit) {
        Some(ModeOption::Fit)
    } else if s == mode_name(ModeOption::Span) {
        Some(ModeOption::Span)
    } else if s == mode_name(ModeOption::Stretch) {
        Some(ModeOption::Stretch)
    } else if s == mode_name(ModeOption::Tile) {
        Some(ModeOption::Tile)
    } else {
        None
    }
}

impl ModeOption {
    /// The canonical name of every variant, in declaration order.
    pub fn possible_values() -> (r: Vec<&'static str>)
        ensures
            r@.len() == 6,
            r@[0]@ == mode_name(ModeOption::Center),
            r@[1]@ == mode_name(ModeOption::Crop),
            r@[2]@ == mode_name(ModeOption::Fit),
            r@[3]@ == mode_name(ModeOption::Span),
            r@[4]@ == mode_name(ModeOption::Stretch),
            r@[5]@ == mode_name(ModeOption::Tile),
    {
        let mut r: Vec<&'static str> = Vec::new();
        r.push("center");
        r.push("crop");
        r.push("fit");
        r.push("span");
        r.push("stretch");
        r.push("tile");
        r
    }

    /// This mode's canonical name.
    pub fn name(&self) -> (r: &'static str)
        ensures
            r@ == mode_name(*self),
    {
        match self {
            ModeOption::Center => "center",
            ModeOption::Crop => "crop",
            ModeOption::Fit => "fit",
            ModeOption::Span => "span",
            ModeOption::Stretch => "stretch",
            ModeOption::Tile => "tile",
        }
    }

    /// Parses a mode string by exact, case-sensitive comparison with the six
    /// canonical names.
    pub fn from_str(s: &str) -> (r: Option<ModeOption>)
        ensures
            r == parse_mode(s@),
    {
        if str_eq(s, "center") {
            Some(ModeOption::Center)
        } else if str_eq(s, "crop") {
            Some(ModeOption::Crop)
        } else if str_eq(s, "fit") {
            Some(ModeOption::Fit)
        } else if str_eq(s, "span") {
            Some(ModeOption::Span)
        } else if str_eq(s, "stretch") {
            Some(ModeOption::Stretch)
        } else if str_eq(s, "tile") {
            Some(ModeOption::Tile)
        } else {
            None
        }
    }
}

/// Parsing is exact: a string parses to a mode if and only if it is that
/// mode's canonical name, so the six canonical names parse to their own
/// variants and every other string is rejected.
pub proof fn lemma_parse_mode_exact(s: Seq<char>)
    ensures
        forall|m: ModeOption| parse_mode(s) == Some(m) <==> s == mode_name(m),
{
    lemma_mode_names_distinct();
}

/// Each of the six canonical mode names parses, and to its own variant.
pub proof fn lemma_canonical_names_parse()
    ensures
        forall|m: ModeOption| parse_mode(mode_name(m)) == Some(m),
{
    lemma_mode_names_distinct();
}

/// The six canonical names are pairwise distinct, so each one names a unique
/// mode.
pub proof fn lemma_mode_names_distinct()
    ensures
        forall|m1: ModeOption, m2: ModeOption| mode_name(m1) == mode_name(m2) ==> m1 == m2,
{
    reveal_strlit("center");
    reveal_strlit("crop");
    reveal_strlit("fit");
    reveal_strlit("span");
    reveal_strlit("stretch");
    reveal_strlit("tile");
    assert forall|m1: ModeOption, m2: ModeOption| mode_name(m1) == mode_name(m2) implies m1
        == m2 by {
        if m1 != m2 {
            assert(mode_name(m1) != mode_name(m2)) by {
                lemma_distinct_names_pair(m1, m2);
            }
        }
    }
}

proof fn lemma_distinct_names_pair(m1: ModeOption, m2: ModeOption)
    requires
        m1 != m2,
    ensures
        mode_name(m1) != mode_name(m2),
{
    reveal_strlit("center");
    reveal_strlit("crop");
    reveal_strlit("fit");
    reveal_strlit("span");
    reveal_strlit("stretch");
    reveal_strlit("tile");
    assert(mode_name(ModeOption::Center).len() == 6);
    assert(mode_name(ModeOption::Crop).len() == 4);
    assert(mode_name(ModeOption::Fit).len() == 3);
    assert(mode_name(ModeOption::Span).len() == 4);
    assert(mode_name(ModeOption::Stretch).len() == 7);
    assert(mode_name(ModeOption::Tile).len() == 4);
    assert(mode_name(ModeOption::Crop)[0] == 'c');
    assert(mode_name(ModeOption::Span)[0] == 's');
    assert(mode_name(ModeOption::Tile)[0] == 't');
}

} // verus!

//! Per-club identity: a readable score-highlight colour and a block-art
//! emblem, described declaratively and looked up by the services' names.
//! Dark club colours (navy/black/brown) are nudged brighter so the emblem
//! still reads on a dark terminal background.

use vstd::prelude::*;
use crate::text::{eq_ignore_ascii_case, eq_ignore_ascii_case_spec, law_ignore_case_equivalence};

verus! {

/// RGB triple.
pub type Rgb = (u8, u8, u8);

// Brightened club colours, tuned for legibility on a dark terminal.
pub const BLACK: Rgb = (30, 30, 34);
pub const WHITE: Rgb = (244, 244, 244);
pub const NAVY: Rgb = (14, 54, 110);
pub const NAVY_GEEL: Rgb = (18, 60, 120);
pub const ROYAL: Rgb = (30, 70, 160);
pub const BLUE_WCE: Rgb = (0, 70, 170);
pub const BLUE_DOG: Rgb = (40, 95, 185);
pub const RED: Rgb = (226, 25, 55);
pub const RED_ESS: Rgb = (210, 38, 52);
pub const RED_STK: Rgb = (237, 27, 47);
pub const RED_DOG: Rgb = (200, 20, 55);
pub const MAROON: Rgb = (150, 12, 70);
pub const GOLD_BL: Rgb = (253, 190, 87);
pub const GOLD_HAW: Rgb = (251, 191, 21);
pub const GOLD_WCE: Rgb = (242, 169, 0);
pub const YELLOW: Rgb = (255, 210, 0);
pub const ORANGE: Rgb = (244, 121, 32);
pub const CHARCOAL: Rgb = (52, 52, 51);
pub const BROWN: Rgb = (108, 55, 22);
pub const PURPLE: Rgb = (78, 34, 124);
pub const TEAL: Rgb = (0, 140, 172);

/// Hand-drawn monogram letters (only the few clubs that need one).
#[derive(Debug, Clone, Copy, PartialEq, Eq, Structural)]
pub enum Glyph {
    C,
    G,
}

/// How a club's logo tile is drawn. Stripe/band variants fill the whole
/// tile; the rest paint a coloured tile with a foreground motif.
#[derive(Clone, Copy)]
pub enum Emblem {
    /// Vertical guernsey stripes, colours cycled left to right.
    VStripes(&'static [Rgb]),
    /// Horizontal guernsey bands, one per colour top to bottom.
    HBands(&'static [Rgb]),
    /// Diagonal sash (top-right to bottom-left) over a solid tile.
    Sash { bg: Rgb, stripe: Rgb },
    /// The Swans' white V on a red tile.
    Vee { bg: Rgb, fg: Rgb },
    /// Gold Coast sunburst.
    Sun { core: Rgb, ray: Rgb },
    /// Fremantle anchor.
    Anchor { bg: Rgb, fg: Rgb },
    /// A monogram letter centred on a tile.
    Letter { bg: Rgb, fg: Rgb, glyph: Glyph },
}

#[derive(Clone, Copy)]
pub struct Team {
    pub nickname: &'static str,
    pub name: &'static str,
    /// Bright, readable colour used to highlight this team's score.
    pub score: Rgb,
    pub emblem: Emblem,
}

pub const TEAM_COUNT: usize = 18;

/// The clubs' nicknames, as the services send them.
pub const NICKNAMES: [&'static str; 18] = [
    "Crows",
    "Lions",
    "Blues",
    "Magpies",
    "Bombers",
    "Dockers",
    "Cats",
    "SUNS",
    "GIANTS",
    "Hawks",
    "Demons",
    "Kangaroos",
    "Power",
    "Tigers",
    "Saints",
    "Swans",
    "Eagles",
    "Bulldogs",
];

/// The clubs' full names.
pub const NAMES: [&'static str; 18] = [
    "Adelaide Crows",
    "Brisbane Lions",
    "Carlton",
    "Collingwood",
    "Essendon",
    "Fremantle",
    "Geelong Cats",
    "Gold Coast SUNS",
    "GWS GIANTS",
    "Hawthorn",
    "Melbourne",
    "North Melbourne",
    "Port Adelaide",
    "Richmond",
    "St Kilda",
    "Sydney Swans",
    "West Coast Eagles",
    "Western Bulldogs",
];

/// The colour each club's score is shown in.
pub const SCORE_COLOURS: [Rgb; 18] = [
    YELLOW,
    GOLD_BL,
    (120, 170, 230),
    WHITE,
    RED_ESS,
    (150, 110, 210),
    WHITE,
    YELLOW,
    ORANGE,
    GOLD_HAW,
    RED,
    (90, 140, 220),
    TEAL,
    YELLOW,
    RED_STK,
    RED,
    GOLD_WCE,
    (70, 130, 220),
];

/// The emblem of club `i`.
pub open spec fn is_club_emblem(i: int, e: Emblem) -> bool {
    if i == 0 {
        e matches Emblem::HBands(c) && c@ == seq![NAVY, RED, YELLOW]
    } else if i == 1 {
        e matches Emblem::HBands(c) && c@ == seq![MAROON, GOLD_BL, BLUE_WCE]
    } else if i == 2 {
        e == Emblem::Letter { bg: NAVY, fg: WHITE, glyph: Glyph::C }
    } else if i == 3 {
        e matches Emblem::VStripes(c) && c@ == seq![BLACK, WHITE]
    } else if i == 4 {
        e == Emblem::Sash { bg: BLACK, stripe: RED_ESS }
    } else if i == 5 {
        e == Emblem::Anchor { bg: PURPLE, fg: WHITE }
    } else if i == 6 {
        e matches Emblem::VStripes(c) && c@ == seq![NAVY_GEEL, WHITE]
    } else if i == 7 {
        e == Emblem::Sun { core: RED, ray: YELLOW }
    } else if i == 8 {
        e == Emblem::Letter { bg: CHARCOAL, fg: ORANGE, glyph: Glyph::G }
    } else if i == 9 {
        e matches Emblem::VStripes(c) && c@ == seq![BROWN, GOLD_HAW]
    } else if i == 10 {
        e == Emblem::Sash { bg: NAVY, stripe: RED }
    } else if i == 11 {
        e matches Emblem::VStripes(c) && c@ == seq![ROYAL, WHITE]
    } else if i == 12 {
        e matches Emblem::VStripes(c) && c@ == seq![TEAL, WHITE, BLACK]
    } else if i == 13 {
        e == Emblem::Sash { bg: BLACK, stripe: YELLOW }
    } else if i == 14 {
        e matches Emblem::HBands(c) && c@ == seq![RED_STK, WHITE, BLACK]
    } else if i == 15 {
        e == Emblem::Vee { bg: RED, fg: WHITE }
    } else if i == 16 {
        e matches Emblem::VStripes(c) && c@ == seq![BLUE_WCE, GOLD_WCE]
    } else if i == 17 {
        e matches Emblem::HBands(c) && c@ == seq![BLUE_DOG, WHITE, RED_DOG]
    } else {
        false
    }
}

/// The emblem of club `i` (in the order of [`NICKNAMES`]).
pub fn emblem_of(i: usize) -> (e: Emblem)
    requires
        i < TEAM_COUNT,
    ensures
        is_club_emblem(i as int, e),
{
    if i == 0 {
        Emblem::HBands(&[NAVY, RED, YELLOW])
    } else if i == 1 {
        Emblem::HBands(&[MAROON, GOLD_BL, BLUE_WCE])
    } else if i == 2 {
        Emblem::Letter { bg: NAVY, fg: WHITE, glyph: Glyph::C }
    } else if i == 3 {
        Emblem::VStripes(&[BLACK, WHITE])
    } else if i == 4 {
        Emblem::Sash { bg: BLACK, stripe: RED_ESS }
    } else if i == 5 {
        Emblem::Anchor { bg: PURPLE, fg: WHITE }
    } else if i == 6 {
        Emblem::VStripes(&[NAVY_GEEL, WHITE])
    } else if i == 7 {
        Emblem::Sun { core: RED, ray: YELLOW }
    } else if i == 8 {
        Emblem::Letter { bg: CHARCOAL, fg: ORANGE, glyph: Glyph::G }
    } else if i == 9 {
        Emblem::VStripes(&[BROWN, GOLD_HAW])
    } else if i == 10 {
        Emblem::Sash { bg: NAVY, stripe: RED }
    } else if i == 11 {
        Emblem::VStripes(&[ROYAL, WHITE])
    } else if i == 12 {
        Emblem::VStripes(&[TEAL, WHITE, BLACK])
    } else if i == 13 {
        Emblem::Sash { bg: BLACK, stripe: YELLOW }
    } else if i == 14 {
        Emblem::HBands(&[RED_STK, WHITE, BLACK])
    } else if i == 15 {
        Emblem::Vee { bg: RED, fg: WHITE }
    } else if i == 16 {
        Emblem::VStripes(&[BLUE_WCE, GOLD_WCE])
    } else {
        Emblem::HBands(&[BLUE_DOG, WHITE, RED_DOG])
    }
}

/// Club `i`.
pub open spec fn is_club(i: int, t: Team) -> bool {
    &&& 0 <= i < TEAM_COUNT
    &&& t.nickname == NICKNAMES[i]
    &&& t.name == NAMES[i]
    &&& t.score == SCORE_COLOURS[i]
    &&& is_club_emblem(i, t.emblem)
}

/// Club `i`, in the order of [`NICKNAMES`].
pub fn club(i: usize) -> (t: Team)
    requires
        i < TEAM_COUNT,
    ensures
        is_club(i as int, t),
{
    Team { nickname: NICKNAMES[i], name: NAMES[i], score: SCORE_COLOURS[i], emblem: emblem_of(i) }
}

/// The first of `names` from index `i` on that equals `s` up to ASCII case.
pub open spec fn first_match_from(names: Seq<&'static str>, s: Seq<char>, i: int) -> Option<int>
    decreases names.len() - i,
{
    if i < 0 || i >= names.len() {
        None
    } else if eq_ignore_ascii_case_spec(names[i]@, s) {
        Some(i)
    } else {
        first_match_from(names, s, i + 1)
    }
}

/// The club a fixture names: the first whose nickname matches (ignoring
/// ASCII case), else the first whose full name matches.
pub open spec fn club_index(nickname: Seq<char>, name: Seq<char>) -> Option<int> {
    match first_match_from(NICKNAMES@, nickname, 0) {
        Some(i) => Some(i),
        None => first_match_from(NAMES@, name, 0),
    }
}

fn find_name(names: &[&'static str; 18], s: &str) -> (r: Option<usize>)
    ensures
        r matches Some(i) ==> i < 18 && first_match_from(names@, s@, 0) == Some(i as int),
        r is None ==> first_match_from(names@, s@, 0) is None,
{
    let mut i: usize = 0;
    while i < 18
        invariant
            i <= 18,
            names@.len() == 18,
            first_match_from(names@, s@, i as int) == first_match_from(names@, s@, 0),
        decreases 18 - i,
    {
        if eq_ignore_ascii_case(names[i], s) {
            return Some(i);
        }
        i = i + 1;
    }
    None
}

/// Resolve a club by API `nickname` (exact, case-insensitive), falling back
/// to a case-insensitive match on the full `name`.
pub fn lookup(nickname: &str, name: &str) -> (r: Option<Team>)
    ensures
        match club_index(nickname@, name@) {
            Some(i) => r matches Some(t) && is_club(i, t),
            None => r is None,
        },
{
    let found = match find_name(&NICKNAMES, nickname) {
        Some(i) => Some(i),
        None => find_name(&NAMES, name),
    };
    match found {
        Some(i) => Some(club(i)),
        None => None,
    }
}

proof fn lemma_first_match_ignores_case(names: Seq<&'static str>, s1: Seq<char>, s2: Seq<char>, i: int)
    requires
        eq_ignore_ascii_case_spec(s1, s2),
    ensures
        first_match_from(names, s1, i) == first_match_from(names, s2, i),
    decreases names.len() - i,
{
    if 0 <= i < names.len() {
        lemma_first_match_from_ignores_case_step(names[i]@, s1, s2);
        lemma_first_match_ignores_case(names, s1, s2, i + 1);
    }
}

proof fn lemma_first_match_from_ignores_case_step(a: Seq<char>, s1: Seq<char>, s2: Seq<char>)
    requires
        eq_ignore_ascii_case_spec(s1, s2),
    ensures
        eq_ignore_ascii_case_spec(a, s1) == eq_ignore_ascii_case_spec(a, s2),
{
    law_ignore_case_equivalence(s1, s2, s2);
    law_ignore_case_equivalence(a, s1, s2);
    law_ignore_case_equivalence(a, s2, s1);
}

/// The club lookup does not depend on the case of the names it is given.
pub proof fn law_lookup_ignores_case(nickname1: Seq<char>, nickname2: Seq<char>, name1: Seq<char>, name2: Seq<char>)
    requires
        eq_ignore_ascii_case_spec(nickname1, nickname2),
        eq_ignore_ascii_case_spec(name1, name2),
    ensures
        club_index(nickname1, name1) == club_index(nickname2, name2),
{
    lemma_first_match_ignores_case(NICKNAMES@, nickname1, nickname2, 0);
    lemma_first_match_ignores_case(NAMES@, name1, name2, 0);
}

proof fn lemma_first_match_found(names: Seq<&'static str>, s: Seq<char>, k: int)
    ensures
        first_match_from(names, s, k) matches Some(i) ==> k <= i < names.len()
            && eq_ignore_ascii_case_spec(names[i]@, s),
    decreases names.len() - k,
{
    if 0 <= k < names.len() {
        lemma_first_match_found(names, s, k + 1);
    }
}

/// A club found by lookup is named by the nickname given (up to case), or,
/// when no club has that nickname, by the full name given.
pub proof fn law_lookup_finds_a_named_club(nickname: Seq<char>, name: Seq<char>)
    ensures
        club_index(nickname, name) matches Some(i) ==> 0 <= i < TEAM_COUNT && (
            eq_ignore_ascii_case_spec(NICKNAMES[i]@, nickname)
            || (first_match_from(NICKNAMES@, nickname, 0) is None
                && eq_ignore_ascii_case_spec(NAMES[i]@, name))),
{
    lemma_first_match_found(NICKNAMES@, nickname, 0);
    lemma_first_match_found(NAMES@, name, 0);
}

} // verus!

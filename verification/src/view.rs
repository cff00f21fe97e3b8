//! What the screens show, apart from drawing: score texts, the status line,
//! who leads, which statistics are highlighted, and row bounds.

use vstd::prelude::*;
use crate::app::MatchData;
use crate::time::{display_shaped, format_start_time, shows_instant, utc_instant, DISPLAY_RANGE};
use crate::models::{
    status_concluded, status_is_concluded, status_is_live, status_live, CfsScore, FixtureMatch,
    MatchClock, Period, ScoreLine, ScoringEvent, SimpleScore, StatKey,
};
use crate::text::{
    clock_text, format_clock, period_label, period_label_text, push_char, push_signed_decimal,
    signed_decimal,
};

verus! {

/// A fixture score as "goals.behinds (total)".
pub open spec fn score_text_of(score: Option<SimpleScore>) -> Seq<char> {
    match score {
        Some(s) => signed_decimal(s.goals as int) + seq!['.'] + signed_decimal(s.behinds as int)
            + seq![' ', '('] + signed_decimal(s.total_score as int) + seq![')'],
        None => Seq::empty(),
    }
}

/// The score shown in a fixture row; nothing before the match has a score.
pub fn score_text(score: Option<SimpleScore>) -> (r: String)
    ensures
        r@ == score_text_of(score),
{
    let mut t = String::new();
    match score {
        Some(s) => {
            push_signed_decimal(&mut t, s.goals);
            push_char(&mut t, '.');
            push_signed_decimal(&mut t, s.behinds);
            push_char(&mut t, ' ');
            push_char(&mut t, '(');
            push_signed_decimal(&mut t, s.total_score);
            push_char(&mut t, ')');
            assert(t@ =~= score_text_of(score));
        },
        None => {},
    }
    t
}

/// A fixture score as a score line; no score reads as nil.
pub fn simple_to_line(s: Option<SimpleScore>) -> (r: ScoreLine)
    ensures
        r == match s {
            Some(s) => ScoreLine { goals: s.goals, behinds: s.behinds, total_score: s.total_score },
            None => ScoreLine { goals: 0, behinds: 0, total_score: 0 },
        },
{
    match s {
        Some(s) => ScoreLine { goals: s.goals, behinds: s.behinds, total_score: s.total_score },
        None => ScoreLine { goals: 0, behinds: 0, total_score: 0 },
    }
}

/// Where a match stands.
#[derive(Debug, Clone, Copy, PartialEq, Eq, Structural)]
pub enum MatchStatus {
    Live,
    FullTime,
    Upcoming,
}

pub open spec fn status_kind_of(s: Seq<char>) -> MatchStatus {
    if status_live(s) {
        MatchStatus::Live
    } else if status_concluded(s) {
        MatchStatus::FullTime
    } else {
        MatchStatus::Upcoming
    }
}

/// Reads a status string: live, over, or anything else (not started).
pub fn status_kind(status: &str) -> (r: MatchStatus)
    ensures
        r == status_kind_of(status@),
{
    if status_is_live(status) {
        MatchStatus::Live
    } else if status_is_concluded(status) {
        MatchStatus::FullTime
    } else {
        MatchStatus::Upcoming
    }
}

/// The status cell of a fixture row.
pub fn fixture_status(m: &FixtureMatch) -> (r: MatchStatus)
    ensures
        r == status_kind_of(m.status@),
{
    status_kind(m.status.as_str())
}

/// The status that the match screen goes by: the live score's, unless that
/// is empty or missing, then the fixture's.
pub open spec fn effective_status_of(score: Option<&CfsScore>, fixture_status: Seq<char>) -> Seq<char> {
    match score {
        Some(s) => if s.status@.len() > 0 { s.status@ } else { fixture_status },
        None => fixture_status,
    }
}

pub fn effective_status<'a>(score: Option<&'a CfsScore>, fixture_status: &'a str) -> (r: &'a str)
    ensures
        r@ == effective_status_of(score, fixture_status@),
{
    match score {
        Some(s) => if s.status.as_str().is_empty() { fixture_status } else { s.status.as_str() },
        None => fixture_status,
    }
}

/// `p` is the clock entry at index `i` with the highest period number, and
/// the last such entry.
pub open spec fn is_latest_period(periods: Seq<Period>, i: int) -> bool {
    &&& 0 <= i < periods.len()
    &&& forall|j: int| 0 <= j < periods.len() ==> #[trigger] periods[j].period_number <= periods[i].period_number
    &&& forall|j: int| i < j < periods.len() ==> #[trigger] periods[j].period_number < periods[i].period_number
}

/// The period the live clock shows: the one with the highest number (the
/// last of them if several share it), or none for an empty clock.
pub fn latest_period(clock: &MatchClock) -> (r: Option<Period>)
    ensures
        r is None <==> clock.periods@.len() == 0,
        r matches Some(p) ==> exists|i: int| is_latest_period(clock.periods@, i) && clock.periods@[i] == p,
{
    if clock.periods.len() == 0 {
        return None;
    }
    let mut best: usize = 0;
    let mut i: usize = 1;
    while i < clock.periods.len()
        invariant
            1 <= i <= clock.periods@.len(),
            best < i,
            forall|j: int| 0 <= j < i ==> #[trigger] clock.periods@[j].period_number <= clock.periods@[best as int].period_number,
            forall|j: int| best < j < i ==> #[trigger] clock.periods@[j].period_number < clock.periods@[best as int].period_number,
        decreases clock.periods.len() - i,
    {
        if clock.periods[i].period_number >= clock.periods[best].period_number {
            best = i;
        }
        i = i + 1;
    }
    Some(clock.periods[best])
}

/// The live clock of a period: its label and the time into it.
pub fn live_clock_text(p: Period) -> (r: String)
    ensures
        r@ == period_label_text(p.period_number as nat) + seq![' '] + clock_text(p.period_seconds as int),
{
    let mut s = period_label(p.period_number);
    push_char(&mut s, ' ');
    let c = format_clock(p.period_seconds);
    s.append(c.as_str());
    s
}

/// The scores on the scoreboard, and who is ahead.
#[derive(Debug, Clone, Copy, PartialEq, Eq, Structural)]
pub struct Scoreboard {
    pub home: ScoreLine,
    pub away: ScoreLine,
    pub home_winning: bool,
    pub away_winning: bool,
}

/// The scoreboard of the open match: the live score once it has arrived,
/// else the fixture's.
pub open spec fn scoreboard_of(md: MatchData) -> Scoreboard {
    let (home, away) = match md.item {
        Some(item) => match item.score {
            Some(s) => (s.home_team_score.match_score, s.away_team_score.match_score),
            None => (line_of(md.fixture.home.score), line_of(md.fixture.away.score)),
        },
        None => (line_of(md.fixture.home.score), line_of(md.fixture.away.score)),
    };
    Scoreboard {
        home: home,
        away: away,
        home_winning: home.total_score > away.total_score,
        away_winning: away.total_score > home.total_score,
    }
}

pub open spec fn line_of(s: Option<SimpleScore>) -> ScoreLine {
    match s {
        Some(s) => ScoreLine { goals: s.goals, behinds: s.behinds, total_score: s.total_score },
        None => ScoreLine { goals: 0, behinds: 0, total_score: 0 },
    }
}

pub fn scoreboard(md: &MatchData) -> (r: Scoreboard)
    ensures
        r == scoreboard_of(*md),
        r.home_winning == (r.home.total_score > r.away.total_score),
        r.away_winning == (r.away.total_score > r.home.total_score),
{
    let (home, away) = match &md.item {
        Some(item) => match &item.score {
            Some(s) => (s.home_team_score.match_score, s.away_team_score.match_score),
            None => (simple_to_line(md.fixture.home.score), simple_to_line(md.fixture.away.score)),
        },
        None => (simple_to_line(md.fixture.home.score), simple_to_line(md.fixture.away.score)),
    };
    Scoreboard {
        home,
        away,
        home_winning: home.total_score > away.total_score,
        away_winning: away.total_score > home.total_score,
    }
}

/// The home lead after the last scoring event, or 0 before any.
pub fn final_margin(events: &[ScoringEvent]) -> (r: i64)
    requires
        events@.len() > 0 ==> i64::MIN <= events@.last().aggregate_home_score
            - events@.last().aggregate_away_score <= i64::MAX,
    ensures
        r == if events@.len() > 0 {
            events@.last().aggregate_home_score - events@.last().aggregate_away_score
        } else {
            0
        },
{
    if events.len() > 0 {
        events[events.len() - 1].margin()
    } else {
        0
    }
}

/// Who leads, for the worm's title: "HOME by N", "AWAY by N", or
/// "scores level".
pub open spec fn leader_text_of(home: Seq<char>, away: Seq<char>, margin: int) -> Seq<char> {
    if margin > 0 {
        home + " by "@ + signed_decimal(margin)
    } else if margin < 0 {
        away + " by "@ + signed_decimal(-margin)
    } else {
        "scores level"@
    }
}

pub fn leader_text(home: &str, away: &str, margin: i64) -> (r: String)
    requires
        margin > i64::MIN,
    ensures
        r@ == leader_text_of(home@, away@, margin as int),
{
    if margin > 0 {
        let mut s = String::from_str(home);
        s.append(" by ");
        push_signed_decimal(&mut s, margin);
        s
    } else if margin < 0 {
        let mut s = String::from_str(away);
        s.append(" by ");
        push_signed_decimal(&mut s, -margin);
        s
    } else {
        String::from_str("scores level")
    }
}

/// The ladder position shown: the service's rank, or the row number where
/// the service sends none.
pub fn ladder_position(rank: u32, index: usize) -> (r: u64)
    requires
        index < usize::MAX,
    ensures
        r == if rank == 0 { index + 1 } else { rank as int },
{
    if rank == 0 {
        index as u64 + 1
    } else {
        rank as u64
    }
}

/// "Lower is better" statistics: the smaller number is the better one.
pub open spec fn lower_better(key: StatKey) -> bool {
    key == StatKey::Clangers || key == StatKey::Turnovers || key == StatKey::FreesAgainst
}

pub fn lower_is_better(key: StatKey) -> (r: bool)
    ensures
        r == lower_better(key),
        r == (key == StatKey::Clangers || key == StatKey::Turnovers || key == StatKey::FreesAgainst),
{
    match key {
        StatKey::Clangers | StatKey::Turnovers | StatKey::FreesAgainst => true,
        _ => false,
    }
}

/// Which side's team total is highlighted in the comparison: the better
/// one, none on a tie.
pub open spec fn stat_leaders_of(home: i64, away: i64, key: StatKey) -> (bool, bool) {
    if lower_better(key) { (home < away, away < home) } else { (home > away, away > home) }
}

/// Which side's team total is highlighted in the comparison.
pub fn stat_leaders(home: i64, away: i64, key: StatKey) -> (r: (bool, bool))
    ensures
        r == if lower_better(key) { (home < away, away < home) } else { (home > away, away > home) },
        r == stat_leaders_of(home, away, key),
        !(key == StatKey::Clangers || key == StatKey::Turnovers || key == StatKey::FreesAgainst)
            ==> r == (home > away, away > home),
{
    if lower_is_better(key) {
        (home < away, away < home)
    } else {
        (home > away, away > home)
    }
}

/// A row index kept within `count` rows (0 when there are none).
pub fn clamp_row(row: usize, count: usize) -> (r: usize)
    ensures
        r == if count == 0 { 0 } else if row < count { row as int } else { count - 1 },
{
    let last = if count == 0 { 0 } else { count - 1 };
    if row < last { row } else { last }
}

/// The titles of the match screen's tabs.
pub fn tab_titles(home: &str, away: &str) -> (r: Vec<String>)
    ensures
        r@.len() == 3,
        r@[0]@ == "Team Stats"@,
        r@[1]@ == home@ + " Players"@,
        r@[2]@ == away@ + " Players"@,
{
    let mut home_players = String::from_str(home);
    home_players.append(" Players");
    let mut away_players = String::from_str(away);
    away_players.append(" Players");
    let mut r: Vec<String> = Vec::new();
    r.push(String::from_str("Team Stats"));
    r.push(home_players);
    r.push(away_players);
    r
}

/// The live score of the open match, if it has arrived.
pub open spec fn live_score(md: MatchData) -> Option<CfsScore> {
    match md.item {
        Some(item) => item.score,
        None => None,
    }
}

/// The scoreboard's status line, apart from the weather and how fresh the
/// data is: where the match stands, and the text shown with it.
pub struct StatusLine {
    pub kind: MatchStatus,
    /// The live clock of the latest period while the match is live, or the
    /// start time before it starts.
    pub detail: Option<String>,
}

/// The status line of the open match: a live match shows the clock of its
/// latest period (when the clock has one), a finished match nothing more,
/// and a match yet to start its start time.
pub fn status_line(md: &MatchData) -> (r: StatusLine)
    ensures
        ({
            let score = live_score(*md);
            let status = match score {
                Some(s) => if s.status@.len() > 0 { s.status@ } else { md.fixture.status@ },
                None => md.fixture.status@,
            };
            &&& r.kind == status_kind_of(status)
            &&& r.kind == MatchStatus::FullTime ==> r.detail is None
            &&& r.kind == MatchStatus::Live ==> match score {
                Some(s) => match s.match_clock {
                    Some(clock) => if clock.periods@.len() > 0 {
                        r.detail matches Some(t) && exists|i: int| is_latest_period(clock.periods@, i)
                            && t@ == period_label_text(clock.periods@[i].period_number as nat) + seq![' ']
                                + clock_text(clock.periods@[i].period_seconds as int)
                    } else {
                        r.detail is None
                    },
                    None => r.detail is None,
                },
                None => r.detail is None,
            }
            &&& r.kind == MatchStatus::Upcoming ==> (r.detail is Some && (utc_instant(md.fixture.utc_start_time@) is None
                ==> r.detail.unwrap()@ == md.fixture.utc_start_time@) && match utc_instant(md.fixture.utc_start_time@) {
                    Some(t) => -DISPLAY_RANGE <= t <= DISPLAY_RANGE ==> display_shaped(r.detail.unwrap()@)
                        && shows_instant(r.detail.unwrap()@, t),
                    None => true,
                })
        }),
{
    let score = match &md.item {
        Some(item) => item.score.as_ref(),
        None => None,
    };
    let status = effective_status(score, md.fixture.status.as_str());
    let kind = status_kind(status);
    let detail = match kind {
        MatchStatus::Live => match score {
            Some(s) => match &s.match_clock {
                Some(clock) => match latest_period(clock) {
                    Some(p) => Some(live_clock_text(p)),
                    None => None,
                },
                None => None,
            },
            None => None,
        },
        MatchStatus::FullTime => None,
        MatchStatus::Upcoming => Some(format_start_time(md.fixture.utc_start_time.as_str())),
    };
    StatusLine { kind, detail }
}

/// The side shown as winning is the side with the higher total score (a
/// tie shows neither); the totals are the live score's once it has arrived.
pub proof fn law_winner_has_more_points(md: MatchData)
    ensures
        scoreboard_of(md).home_winning == (scoreboard_of(md).home.total_score > scoreboard_of(md).away.total_score),
        scoreboard_of(md).away_winning == (scoreboard_of(md).away.total_score > scoreboard_of(md).home.total_score),
        match md.item {
            Some(item) => match item.score {
                Some(s) => {
                    &&& scoreboard_of(md).home == s.home_team_score.match_score
                    &&& scoreboard_of(md).away == s.away_team_score.match_score
                },
                None => {
                    &&& scoreboard_of(md).home == line_of(md.fixture.home.score)
                    &&& scoreboard_of(md).away == line_of(md.fixture.away.score)
                },
            },
            None => {
                &&& scoreboard_of(md).home == line_of(md.fixture.home.score)
                &&& scoreboard_of(md).away == line_of(md.fixture.away.score)
            },
        },
{
}

/// In the team comparison the higher total is highlighted, except for
/// clangers, turnovers and frees against, where the lower one is; equal
/// totals highlight neither side.
pub proof fn law_stat_highlight(home: i64, away: i64, key: StatKey)
    ensures
        (key == StatKey::Clangers || key == StatKey::Turnovers || key == StatKey::FreesAgainst) ==>
            stat_leaders_of(home, away, key) == (home < away, away < home),
        !(key == StatKey::Clangers || key == StatKey::Turnovers || key == StatKey::FreesAgainst) ==>
            stat_leaders_of(home, away, key) == (home > away, away > home),
{
}

} // verus!

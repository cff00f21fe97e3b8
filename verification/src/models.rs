//! The data that the AFL web services return, as the library holds it.
//!
//! Numbers that the services send as JSON floating point (player statistics,
//! ladder points and percentages, the temperature) are held as the IEEE-754
//! bit pattern of the `f64` that JSON decoding gives; the library never does
//! floating-point arithmetic on them, it only orders them
//! (see [`float_order`]) and hands them back for display.

use vstd::prelude::*;
use crate::text::{eq_ignore_ascii_case, eq_ignore_ascii_case_spec, push_char, str_eq};

verus! {

pub struct CompSeasonsResponse {
    pub comp_seasons: Vec<CompSeason>,
}

pub struct CompSeason {
    pub id: u32,
    pub name: String,
    pub current_round_number: u32,
}

pub struct MatchesResponse {
    pub matches: Vec<FixtureMatch>,
}

pub struct LadderResponse {
    pub ladders: Vec<Ladder>,
}

pub struct Ladder {
    pub entries: Vec<LadderEntry>,
}

pub struct LadderEntry {
    pub rank: u32,
    pub team: Team,
    /// Bit pattern of the `f64` premiership points.
    pub premiership_points: u64,
    /// Bit pattern of the `f64` percentage.
    pub percentage: u64,
}

pub struct FixtureMatch {
    pub provider_id: String,
    pub status: String,
    pub utc_start_time: String,
    pub round: Round,
    pub home: MatchSide,
    pub away: MatchSide,
    pub venue: Venue,
}

pub struct Round {
    pub round_number: u32,
    pub name: String,
}

pub struct MatchSide {
    pub team: Team,
    pub score: Option<SimpleScore>,
}

pub struct Team {
    pub name: String,
    pub abbreviation: String,
    pub nickname: String,
}

#[derive(Clone, Copy, Debug, PartialEq, Eq, Structural)]
pub struct SimpleScore {
    pub goals: i64,
    pub behinds: i64,
    pub total_score: i64,
}

pub struct Venue {
    pub name: String,
    pub abbreviation: String,
    pub timezone: String,
}

pub struct TokenResponse {
    pub token: String,
}

pub struct MatchItem {
    pub match_info: CfsMatch,
    pub score: Option<CfsScore>,
}

pub struct CfsMatch {
    pub name: String,
    pub status: String,
    pub venue_local_start_time: String,
}

pub struct CfsScore {
    pub status: String,
    pub home_team_score: CfsTeamScore,
    pub away_team_score: CfsTeamScore,
    pub match_clock: Option<MatchClock>,
    pub weather: Option<Weather>,
    pub score_worm: Option<ScoreWorm>,
}

pub struct ScoreWorm {
    pub scoring_events: Vec<ScoringEvent>,
}

pub struct ScoringEvent {
    pub period_number: u32,
    pub period_seconds: i64,
    pub score_type: String,
    pub score_value: i64,
    pub aggregate_home_score: i64,
    pub aggregate_away_score: i64,
    pub team_name: Option<WormTeam>,
    pub player_score: Option<WormPlayerScore>,
}

pub struct WormTeam {
    pub team_abbr: String,
}

pub struct WormPlayerScore {
    pub player: WormPlayer,
}

pub struct WormPlayer {
    pub player_name: PlayerName,
}

pub struct CfsTeamScore {
    pub match_score: ScoreLine,
    pub period_score: Vec<PeriodScore>,
}

#[derive(Clone, Copy, Debug, PartialEq, Eq, Structural)]
pub struct ScoreLine {
    pub goals: i64,
    pub behinds: i64,
    pub total_score: i64,
}

#[derive(Clone, Copy, Debug, PartialEq, Eq, Structural)]
pub struct PeriodScore {
    pub period_number: u32,
    pub score: ScoreLine,
}

pub struct MatchClock {
    pub periods: Vec<Period>,
}

#[derive(Clone, Copy, Debug, PartialEq, Eq, Structural)]
pub struct Period {
    pub period_number: u32,
    pub period_seconds: i64,
    pub period_completed: bool,
}

pub struct Weather {
    pub description: String,
    /// Bit pattern of the `f64` temperature, when the service sends one.
    pub temp_in_celsius: Option<u64>,
}

pub struct PlayerStatsResponse {
    pub home_team_player_stats: Vec<PlayerEntry>,
    pub away_team_player_stats: Vec<PlayerEntry>,
}

pub struct PlayerEntry {
    pub player: PlayerOuter,
    pub player_stats: PlayerStatsWrap,
}

pub struct PlayerOuter {
    pub player: PlayerInner,
    pub jumper_number: i64,
}

pub struct PlayerInner {
    pub position: String,
    pub player: PlayerCore,
}

pub struct PlayerCore {
    pub player_name: PlayerName,
}

pub struct PlayerName {
    pub given_name: String,
    pub surname: String,
}

pub struct PlayerStatsWrap {
    pub stats: Stats,
}

/// A player's statistics for one match; every value is the bit pattern of
/// the `f64` the service sent, or `None` where it sent nothing or `null`.
#[derive(Clone, Copy)]
pub struct Stats {
    pub goals: Option<u64>,
    pub behinds: Option<u64>,
    pub kicks: Option<u64>,
    pub handballs: Option<u64>,
    pub disposals: Option<u64>,
    pub marks: Option<u64>,
    pub tackles: Option<u64>,
    pub hitouts: Option<u64>,
    pub clearances: Option<Clearances>,
    pub inside50s: Option<u64>,
    pub rebound50s: Option<u64>,
    pub contested_possessions: Option<u64>,
    pub uncontested_possessions: Option<u64>,
    pub clangers: Option<u64>,
    pub frees_for: Option<u64>,
    pub frees_against: Option<u64>,
    pub disposal_efficiency: Option<u64>,
    pub dream_team_points: Option<u64>,
    pub metres_gained: Option<u64>,
    pub goal_assists: Option<u64>,
    pub marks_inside50: Option<u64>,
    pub contested_marks: Option<u64>,
    pub intercepts: Option<u64>,
    pub score_involvements: Option<u64>,
    pub turnovers: Option<u64>,
}

#[derive(Clone, Copy)]
pub struct Clearances {
    pub centre_clearances: Option<u64>,
    pub stoppage_clearances: Option<u64>,
    pub total_clearances: Option<u64>,
}

#[derive(Clone, Copy, Debug, PartialEq, Eq, Structural)]
pub enum StatKey {
    Goals,
    Behinds,
    Kicks,
    Handballs,
    Disposals,
    Marks,
    Tackles,
    Hitouts,
    Clearances,
    Inside50s,
    Rebound50s,
    ContestedPossessions,
    UncontestedPossessions,
    Clangers,
    FreesFor,
    FreesAgainst,
    DisposalEfficiency,
    DreamTeamPoints,
    MetresGained,
    GoalAssists,
    MarksInside50,
    ContestedMarks,
    Intercepts,
    ScoreInvolvements,
    Turnovers,
}

impl Clone for Team {
    fn clone(&self) -> (r: Self)
        ensures
            r == *self,
    {
        Team { name: self.name.clone(), abbreviation: self.abbreviation.clone(), nickname: self.nickname.clone() }
    }
}

impl Clone for Round {
    fn clone(&self) -> (r: Self)
        ensures
            r == *self,
    {
        Round { round_number: self.round_number, name: self.name.clone() }
    }
}

impl Clone for MatchSide {
    fn clone(&self) -> (r: Self)
        ensures
            r == *self,
    {
        MatchSide { team: self.team.clone(), score: self.score }
    }
}

impl Clone for Venue {
    fn clone(&self) -> (r: Self)
        ensures
            r == *self,
    {
        Venue { name: self.name.clone(), abbreviation: self.abbreviation.clone(), timezone: self.timezone.clone() }
    }
}

impl Clone for FixtureMatch {
    fn clone(&self) -> (r: Self)
        ensures
            r == *self,
    {
        FixtureMatch {
            provider_id: self.provider_id.clone(),
            status: self.status.clone(),
            utc_start_time: self.utc_start_time.clone(),
            round: self.round.clone(),
            home: self.home.clone(),
            away: self.away.clone(),
            venue: self.venue.clone(),
        }
    }
}

impl Clone for CompSeason {
    fn clone(&self) -> (r: Self)
        ensures
            r == *self,
    {
        CompSeason { id: self.id, name: self.name.clone(), current_round_number: self.current_round_number }
    }
}

/// The statuses under which the services report a match in progress.
pub open spec fn status_live(s: Seq<char>) -> bool {
    s == "LIVE"@ || s == "IN_PROGRESS"@ || s == "PERIOD_BREAK"@
}

/// The statuses under which the services report a finished match.
pub open spec fn status_concluded(s: Seq<char>) -> bool {
    s == "CONCLUDED"@ || s == "FULL_TIME"@ || s == "POST_MATCH"@
}

/// No status means both that a match is being played and that it is over.
pub proof fn law_live_and_concluded_exclusive(s: Seq<char>)
    ensures
        !(status_live(s) && status_concluded(s)),
{
    reveal_strlit("LIVE");
    reveal_strlit("IN_PROGRESS");
    reveal_strlit("PERIOD_BREAK");
    reveal_strlit("CONCLUDED");
    reveal_strlit("FULL_TIME");
    reveal_strlit("POST_MATCH");
    assert("LIVE"@.len() == 4);
    assert("IN_PROGRESS"@.len() == 11);
    assert("PERIOD_BREAK"@.len() == 12);
    assert("CONCLUDED"@.len() == 9);
    assert("FULL_TIME"@.len() == 9);
    assert("POST_MATCH"@.len() == 10);
}

/// Whether a status string means the match is being played.
pub fn status_is_live(status: &str) -> (r: bool)
    ensures
        r == status_live(status@),
{
    str_eq(status, "LIVE") || str_eq(status, "IN_PROGRESS") || str_eq(status, "PERIOD_BREAK")
}

/// Whether a status string means the match is over.
pub fn status_is_concluded(status: &str) -> (r: bool)
    ensures
        r == status_concluded(status@),
{
    str_eq(status, "CONCLUDED") || str_eq(status, "FULL_TIME") || str_eq(status, "POST_MATCH")
}

impl FixtureMatch {
    pub fn is_live(&self) -> (r: bool)
        ensures
            r == status_live(self.status@),
    {
        status_is_live(self.status.as_str())
    }

    pub fn is_concluded(&self) -> (r: bool)
        ensures
            r == status_concluded(self.status@),
    {
        status_is_concluded(self.status.as_str())
    }
}

/// The first character of a name, or nothing for an empty name.
pub open spec fn initial_of(given: Seq<char>) -> Seq<char> {
    if given.len() > 0 { seq![given[0]] } else { Seq::empty() }
}

/// A short player name: the initial of the given name, a full stop, a space
/// and the surname.
pub open spec fn short_name(name: PlayerName) -> Seq<char> {
    initial_of(name.given_name@) + ". "@ + name.surname@
}

/// The first character of `given` as a string, or an empty string.
pub fn initial(given: &str) -> (r: String)
    ensures
        r@ == initial_of(given@),
{
    let mut s = String::new();
    if given.unicode_len() > 0 {
        push_char(&mut s, given.get_char(0));
    }
    assert(s@ =~= initial_of(given@));
    s
}

fn short_name_of(name: &PlayerName) -> (r: String)
    ensures
        r@ == short_name(*name),
{
    let mut s = initial(name.given_name.as_str());
    s.append(". ");
    s.append(name.surname.as_str());
    s
}

impl ScoringEvent {
    /// Home lead (negative when away is in front).
    pub fn margin(&self) -> (r: i64)
        requires
            i64::MIN <= self.aggregate_home_score - self.aggregate_away_score <= i64::MAX,
        ensures
            r == self.aggregate_home_score - self.aggregate_away_score,
    {
        self.aggregate_home_score - self.aggregate_away_score
    }

    pub fn is_goal(&self) -> (r: bool)
        ensures
            r == eq_ignore_ascii_case_spec(self.score_type@, "GOAL"@),
    {
        eq_ignore_ascii_case(self.score_type.as_str(), "GOAL")
    }

    pub fn team_abbr(&self) -> (r: &str)
        ensures
            r@ == match self.team_name {
                Some(t) => t.team_abbr@,
                None => ""@,
            },
    {
        match &self.team_name {
            Some(t) => t.team_abbr.as_str(),
            None => "",
        }
    }

    pub fn player_name(&self) -> (r: String)
        ensures
            r@ == match self.player_score {
                Some(p) => short_name(p.player.player_name),
                None => Seq::<char>::empty(),
            },
    {
        match &self.player_score {
            Some(p) => short_name_of(&p.player.player_name),
            None => String::new(),
        }
    }
}

impl PlayerEntry {
    pub fn name(&self) -> (r: String)
        ensures
            r@ == short_name(self.player.player.player.player_name),
    {
        short_name_of(&self.player.player.player.player_name)
    }

    pub fn jumper(&self) -> (r: i64)
        ensures
            r == self.player.jumper_number,
    {
        self.player.jumper_number
    }

    pub fn position(&self) -> (r: &str)
        ensures
            r@ == self.player.player.position@,
    {
        self.player.player.position.as_str()
    }

    pub fn stats(&self) -> (r: &Stats)
        ensures
            *r == self.player_stats.stats,
    {
        &self.player_stats.stats
    }
}

impl Stats {
    /// The recorded value of a statistic, if the service sent one; the
    /// clearance count is the nested `total_clearances` figure.
    pub open spec fn field(self, key: StatKey) -> Option<u64> {
        match key {
            StatKey::Goals => self.goals,
            StatKey::Behinds => self.behinds,
            StatKey::Kicks => self.kicks,
            StatKey::Handballs => self.handballs,
            StatKey::Disposals => self.disposals,
            StatKey::Marks => self.marks,
            StatKey::Tackles => self.tackles,
            StatKey::Hitouts => self.hitouts,
            StatKey::Clearances => match self.clearances {
                Some(c) => c.total_clearances,
                None => None,
            },
            StatKey::Inside50s => self.inside50s,
            StatKey::Rebound50s => self.rebound50s,
            StatKey::ContestedPossessions => self.contested_possessions,
            StatKey::UncontestedPossessions => self.uncontested_possessions,
            StatKey::Clangers => self.clangers,
            StatKey::FreesFor => self.frees_for,
            StatKey::FreesAgainst => self.frees_against,
            StatKey::DisposalEfficiency => self.disposal_efficiency,
            StatKey::DreamTeamPoints => self.dream_team_points,
            StatKey::MetresGained => self.metres_gained,
            StatKey::GoalAssists => self.goal_assists,
            StatKey::MarksInside50 => self.marks_inside50,
            StatKey::ContestedMarks => self.contested_marks,
            StatKey::Intercepts => self.intercepts,
            StatKey::ScoreInvolvements => self.score_involvements,
            StatKey::Turnovers => self.turnovers,
        }
    }

    /// The value of a statistic with a missing one read as zero: the bit
    /// pattern of `0.0` is `0`.
    pub open spec fn value(self, key: StatKey) -> u64 {
        match self.field(key) {
            Some(v) => v,
            None => 0,
        }
    }

    /// Bit pattern of the `f64` value of a statistic, zero where missing.
    pub fn get(&self, key: StatKey) -> (r: u64)
        ensures
            r == self.value(key),
    {
        let v = match key {
            StatKey::Goals => self.goals,
            StatKey::Behinds => self.behinds,
            StatKey::Kicks => self.kicks,
            StatKey::Handballs => self.handballs,
            StatKey::Disposals => self.disposals,
            StatKey::Marks => self.marks,
            StatKey::Tackles => self.tackles,
            StatKey::Hitouts => self.hitouts,
            StatKey::Clearances => match self.clearances {
                Some(c) => c.total_clearances,
                None => None,
            },
            StatKey::Inside50s => self.inside50s,
            StatKey::Rebound50s => self.rebound50s,
            StatKey::ContestedPossessions => self.contested_possessions,
            StatKey::UncontestedPossessions => self.uncontested_possessions,
            StatKey::Clangers => self.clangers,
            StatKey::FreesFor => self.frees_for,
            StatKey::FreesAgainst => self.frees_against,
            StatKey::DisposalEfficiency => self.disposal_efficiency,
            StatKey::DreamTeamPoints => self.dream_team_points,
            StatKey::MetresGained => self.metres_gained,
            StatKey::GoalAssists => self.goal_assists,
            StatKey::MarksInside50 => self.marks_inside50,
            StatKey::ContestedMarks => self.contested_marks,
            StatKey::Intercepts => self.intercepts,
            StatKey::ScoreInvolvements => self.score_involvements,
            StatKey::Turnovers => self.turnovers,
        };
        match v {
            Some(x) => x,
            None => 0,
        }
    }
}

/// The position of an `f64` in the order of `<`, read from its bit pattern:
/// the magnitude bits for a positive number and their negation for a
/// negative one, so that `+0.0` and `-0.0` share position zero. For any two
/// numbers that are not NaN, `a < b` exactly when `float_order(a) <
/// float_order(b)`.
pub open spec fn float_order(bits: u64) -> int {
    let magnitude = (bits & 0x7fff_ffff_ffff_ffffu64) as int;
    if bits < 0x8000_0000_0000_0000u64 { magnitude } else { -magnitude }
}

/// Computes [`float_order`].
pub fn float_order_key(bits: u64) -> (r: i64)
    ensures
        r == float_order(bits),
{
    let m = bits & 0x7fff_ffff_ffff_ffffu64;
    assert(m <= 0x7fff_ffff_ffff_ffffu64) by (bit_vector)
        requires
            m == bits & 0x7fff_ffff_ffff_ffffu64,
    ;
    if bits < 0x8000_0000_0000_0000u64 {
        m as i64
    } else {
        -(m as i64)
    }
}

} // verus!

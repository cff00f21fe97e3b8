//! The AFL web services: where each piece of data is fetched from, when the
//! access token is fetched anew, and how a season's ladders are joined.

use vstd::prelude::*;
use crate::models::{Ladder, LadderEntry};
use crate::text::{decimal, push_decimal};

verus! {

pub const AFLAPI: &'static str = "https://aflapi.afl.com.au";
pub const CFS: &'static str = "https://api.afl.com.au";
pub const USER_AGENT: &'static str = "Mozilla/5.0 (Macintosh; Intel Mac OS X 10_15_7) afl-tui/0.1 (terminal fixture viewer)";
pub const AFL_COMPETITION_ID: u32 = 1;

/// The seasons of the AFL premiership competition, newest first.
pub fn comp_seasons_url() -> (url: String)
    ensures
        url@ == AFLAPI@ + "/afl/v2/competitions/"@ + decimal(AFL_COMPETITION_ID as nat)
            + "/compseasons?pageSize=20"@,
{
    let mut s = String::from_str(AFLAPI);
    s.append("/afl/v2/competitions/");
    push_decimal(&mut s, AFL_COMPETITION_ID as u64);
    s.append("/compseasons?pageSize=20");
    s
}

/// The matches of one round of a season.
pub fn round_matches_url(comp_season_id: u32, round: u32) -> (url: String)
    ensures
        url@ == AFLAPI@ + "/afl/v2/matches?competitionId="@ + decimal(AFL_COMPETITION_ID as nat)
            + "&compSeasonId="@ + decimal(comp_season_id as nat) + "&roundNumber="@
            + decimal(round as nat) + "&pageSize=30"@,
{
    let mut s = String::from_str(AFLAPI);
    s.append("/afl/v2/matches?competitionId=");
    push_decimal(&mut s, AFL_COMPETITION_ID as u64);
    s.append("&compSeasonId=");
    push_decimal(&mut s, comp_season_id as u64);
    s.append("&roundNumber=");
    push_decimal(&mut s, round as u64);
    s.append("&pageSize=30");
    s
}

/// The ladders of a season.
pub fn ladder_url(comp_season_id: u32) -> (url: String)
    ensures
        url@ == AFLAPI@ + "/afl/v2/compseasons/"@ + decimal(comp_season_id as nat) + "/ladders"@,
{
    let mut s = String::from_str(AFLAPI);
    s.append("/afl/v2/compseasons/");
    push_decimal(&mut s, comp_season_id as u64);
    s.append("/ladders");
    s
}

/// The live score, clock and worm of a match.
pub fn match_item_url(provider_id: &str) -> (url: String)
    ensures
        url@ == CFS@ + "/cfs/afl/matchItem/"@ + provider_id@,
{
    let mut s = String::from_str(CFS);
    s.append("/cfs/afl/matchItem/");
    s.append(provider_id);
    s
}

/// The player statistics of a match.
pub fn player_stats_url(provider_id: &str) -> (url: String)
    ensures
        url@ == CFS@ + "/cfs/afl/playerStats/match/"@ + provider_id@,
{
    let mut s = String::from_str(CFS);
    s.append("/cfs/afl/playerStats/match/");
    s.append(provider_id);
    s
}

/// Where the access token for the match services is issued.
pub fn token_url() -> (url: String)
    ensures
        url@ == CFS@ + "/cfs/afl/WMCTok"@,
{
    let mut s = String::from_str(CFS);
    s.append("/cfs/afl/WMCTok");
    s
}

/// A match service refused the token (401 Unauthorized or 403 Forbidden):
/// the token is fetched anew and the request sent once more.
pub fn needs_token_refresh(status: u16) -> (r: bool)
    ensures
        r == (status == 401 || status == 403),
{
    status == 401 || status == 403
}

/// The token to use without asking for a new one: the cached token, unless
/// a fresh one is demanded.
pub fn reusable_token(force_refresh: bool, cached: &Option<String>) -> (r: Option<String>)
    ensures
        r == (if force_refresh { None } else { *cached }),
{
    if force_refresh {
        return None;
    }
    match cached {
        Some(t) => Some(t.clone()),
        None => None,
    }
}

/// The entries of a list of ladders, one ladder after another.
pub open spec fn joined_entries(ladders: Seq<Ladder>) -> Seq<LadderEntry>
    decreases ladders.len(),
{
    if ladders.len() == 0 {
        Seq::empty()
    } else {
        ladders[0].entries@ + joined_entries(ladders.drop_first())
    }
}

/// Joins the entries of a season's ladders, in order.
pub fn join_ladders(ladders: Vec<Ladder>) -> (entries: Vec<LadderEntry>)
    ensures
        entries@ == joined_entries(ladders@),
{
    let mut rest = ladders;
    let mut out: Vec<LadderEntry> = Vec::new();
    while rest.len() > 0
        invariant
            out@ + joined_entries(rest@) == joined_entries(ladders@),
        decreases rest.len(),
    {
        let ghost before = rest@;
        let mut ladder = rest.remove(0);
        assert(rest@ =~= before.drop_first());
        let ghost chunk = ladder.entries@;
        out.append(&mut ladder.entries);
        assert(out@ + joined_entries(rest@) =~= joined_entries(ladders@)) by {
            assert(joined_entries(before) == chunk + joined_entries(before.drop_first()));
        }
    }
    assert(joined_entries(rest@) =~= Seq::<LadderEntry>::empty());
    assert(out@ + Seq::<LadderEntry>::empty() =~= out@);
    out
}

} // verus!

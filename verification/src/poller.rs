//! The background poller's messages, and the decisions it takes: what to
//! fetch on each command from the interface and on each refresh tick.

use vstd::prelude::*;
use crate::models::{status_live, status_is_live, CompSeason, FixtureMatch, LadderEntry, MatchItem, PlayerStatsResponse};
use crate::text::{decimal, push_decimal};

verus! {

/// Requests from the interface to the poller.
pub enum Cmd {
    /// Fetch seasons, then the current round of the latest season.
    Init,
    LoadRound(u32),
    LoadLadder,
    /// Start watching a match (providerId); refreshes while it is live.
    Watch(String),
    Unwatch,
}

/// Data the poller hands to the interface.
pub enum DataEvent {
    Season(CompSeason),
    Round { round: u32, matches: Vec<FixtureMatch> },
    Ladder(Vec<LadderEntry>),
    MatchUpdate { provider_id: String, item: Box<MatchItem>, stats: Box<PlayerStatsResponse> },
    Error(String),
}

/// Fixture refresh runs every Nth refresh tick.
pub const FIXTURE_REFRESH_TICKS: u32 = 3;

/// A request to one of the AFL services.
pub enum Fetch {
    Seasons,
    Round { season_id: u32, round: u32 },
    Ladder { season_id: u32 },
    Match(String),
}

/// One thing for the poller to do next: hand data to the interface, or
/// fetch.
pub enum Step {
    Send(DataEvent),
    Fetch(Fetch),
}

/// What the poller remembers between commands and ticks.
pub struct Poller {
    pub season: Option<CompSeason>,
    pub round: Option<u32>,
    pub round_has_live: bool,
    pub watching: Option<String>,
    pub watching_live: bool,
    pub tick_count: u32,
}

/// Some match of the list is being played.
pub open spec fn has_live_match(matches: Seq<FixtureMatch>) -> bool {
    exists|i: int| 0 <= i < matches.len() && status_live(#[trigger] matches[i].status@)
}

/// Whether any match in the round is live.
pub fn any_live(matches: &Vec<FixtureMatch>) -> (r: bool)
    ensures
        r == has_live_match(matches@),
{
    let mut i: usize = 0;
    while i < matches.len()
        invariant
            i <= matches@.len(),
            forall|j: int| 0 <= j < i ==> !status_live(#[trigger] matches@[j].status@),
        decreases matches.len() - i,
    {
        if matches[i].is_live() {
            return true;
        }
        i = i + 1;
    }
    false
}

/// A match is still live (keep refreshing) when its score or its match
/// record says so.
pub open spec fn item_live(item: MatchItem) -> bool {
    (match item.score {
        Some(s) => status_live(s.status@),
        None => false,
    }) || status_live(item.match_info.status@)
}

pub fn match_item_is_live(item: &MatchItem) -> (r: bool)
    ensures
        r == item_live(*item),
{
    let from_score = match &item.score {
        Some(s) => status_is_live(s.status.as_str()),
        None => false,
    };
    from_score || status_is_live(item.match_info.status.as_str())
}

/// An error message: what was being loaded, a colon, and the error.
fn message(what: &str, detail: &str) -> (r: String)
    ensures
        r@ == what@ + ": "@ + detail@,
{
    let mut s = String::from_str(what);
    s.append(": ");
    s.append(detail);
    s
}

/// The fetch that loads a round, if a season is known.
pub open spec fn round_fetch(season: Option<CompSeason>, round: u32) -> Option<Fetch> {
    match season {
        Some(s) => Some(Fetch::Round { season_id: s.id, round: round }),
        None => None,
    }
}

/// The poller after a refresh tick, and what it fetches: a watched match
/// while it is live; otherwise, every third tick, the round while some
/// match in it is live.
pub open spec fn ticked(p: Poller) -> (Poller, Option<Fetch>) {
    let tick = if p.tick_count == u32::MAX { 0 } else { (p.tick_count + 1) as u32 };
    let q = Poller { tick_count: tick, ..p };
    match p.watching {
        Some(id) => (q, if p.watching_live { Some(Fetch::Match(id)) } else { None }),
        None => if p.round_has_live && tick % FIXTURE_REFRESH_TICKS == 0 && p.round is Some {
            match p.season {
                Some(s) => (q, Some(Fetch::Round { season_id: s.id, round: p.round.unwrap() })),
                None => (Poller { round_has_live: false, ..q }, None),
            }
        } else {
            (q, None)
        },
    }
}

/// The poller after a command from the interface, and what it fetches.
pub open spec fn commanded(p: Poller, cmd: Cmd) -> (Poller, Option<Fetch>) {
    match cmd {
        Cmd::Init => (p, Some(Fetch::Seasons)),
        Cmd::LoadRound(r) => match p.season {
            Some(s) => (Poller { round: Some(r), ..p }, Some(Fetch::Round { season_id: s.id, round: r })),
            None => (Poller { round: Some(r), round_has_live: false, ..p }, None),
        },
        Cmd::LoadLadder => (p, match p.season {
            Some(s) => Some(Fetch::Ladder { season_id: s.id }),
            None => None,
        }),
        Cmd::Watch(id) => (Poller { watching: Some(id), ..p }, Some(Fetch::Match(id))),
        Cmd::Unwatch => (Poller { watching: None, ..p }, None),
    }
}

impl Poller {
    pub fn new() -> (p: Self)
        ensures
            p.season is None,
            p.round is None,
            !p.round_has_live,
            p.watching is None,
            !p.watching_live,
            p.tick_count == 0,
    {
        Poller { season: None, round: None, round_has_live: false, watching: None, watching_live: false, tick_count: 0 }
    }

    /// Takes a command from the interface; returns what to fetch for it.
    pub fn on_command(&mut self, cmd: Cmd) -> (fetch: Option<Fetch>)
        ensures
            (*final(self), fetch) == commanded(*old(self), cmd),
    {
        match cmd {
            Cmd::Init => Some(Fetch::Seasons),
            Cmd::LoadRound(r) => {
                self.round = Some(r);
                match &self.season {
                    Some(s) => Some(Fetch::Round { season_id: s.id, round: r }),
                    None => {
                        self.round_has_live = false;
                        None
                    },
                }
            },
            Cmd::LoadLadder => match &self.season {
                Some(s) => Some(Fetch::Ladder { season_id: s.id }),
                None => None,
            },
            Cmd::Watch(id) => {
                self.watching = Some(id.clone());
                Some(Fetch::Match(id))
            },
            Cmd::Unwatch => {
                self.watching = None;
                None
            },
        }
    }

    /// Takes a refresh tick; returns what to refresh.
    pub fn on_tick(&mut self) -> (fetch: Option<Fetch>)
        ensures
            (*final(self), fetch) == ticked(*old(self)),
    {
        self.tick_count = self.tick_count.wrapping_add(1);
        match &self.watching {
            Some(id) => {
                if self.watching_live {
                    Some(Fetch::Match(id.clone()))
                } else {
                    None
                }
            },
            None => {
                if self.round_has_live && self.tick_count % FIXTURE_REFRESH_TICKS == 0 {
                    match self.round {
                        Some(r) => match &self.season {
                            Some(s) => Some(Fetch::Round { season_id: s.id, round: r }),
                            None => {
                                self.round_has_live = false;
                                None
                            },
                        },
                        None => None,
                    }
                } else {
                    None
                }
            },
        }
    }

    /// Takes the answer to a seasons fetch. Seasons come newest first; the
    /// latest is taken, its current round (at least 1) is loaded, and so is
    /// its ladder.
    pub fn on_seasons(&mut self, result: Result<Vec<CompSeason>, String>) -> (steps: Vec<Step>)
        ensures
            match result {
                Ok(seasons) => if seasons@.len() > 0 {
                    let s = seasons@[0];
                    let current = if s.current_round_number >= 1 { s.current_round_number } else { 1 };
                    &&& *final(self) == (Poller { season: Some(s), round: Some(current), ..*old(self) })
                    &&& steps@.len() == 3
                    &&& steps@[0] == Step::Send(DataEvent::Season(s))
                    &&& steps@[1] == Step::Fetch(Fetch::Round { season_id: s.id, round: current })
                    &&& steps@[2] == Step::Fetch(Fetch::Ladder { season_id: s.id })
                } else {
                    &&& *final(self) == *old(self)
                    &&& steps@.len() == 1
                    &&& steps@[0] matches Step::Send(DataEvent::Error(e))
                    &&& e@ == "no seasons returned by AFL API"@
                },
                Err(detail) => {
                    &&& *final(self) == *old(self)
                    &&& steps@.len() == 1
                    &&& steps@[0] matches Step::Send(DataEvent::Error(e))
                    &&& e@ == "loading seasons"@ + ": "@ + detail@
                },
            },
    {
        let mut steps: Vec<Step> = Vec::new();
        match result {
            Ok(seasons) => {
                if seasons.len() > 0 {
                    let s = seasons[0].clone();
                    let current = if s.current_round_number >= 1 { s.current_round_number } else { 1 };
                    let id = s.id;
                    self.season = Some(s.clone());
                    self.round = Some(current);
                    steps.push(Step::Send(DataEvent::Season(s)));
                    steps.push(Step::Fetch(Fetch::Round { season_id: id, round: current }));
                    steps.push(Step::Fetch(Fetch::Ladder { season_id: id }));
                } else {
                    steps.push(Step::Send(DataEvent::Error(String::from_str("no seasons returned by AFL API"))));
                }
            },
            Err(detail) => {
                steps.push(Step::Send(DataEvent::Error(message("loading seasons", detail.as_str()))));
            },
        }
        steps
    }

    /// Takes the answer to a round fetch; remembers whether any of its
    /// matches is live and returns the event for the interface.
    pub fn on_round(&mut self, round: u32, result: Result<Vec<FixtureMatch>, String>) -> (event: DataEvent)
        ensures
            match result {
                Ok(matches) => {
                    &&& *final(self) == (Poller { round_has_live: has_live_match(matches@), ..*old(self) })
                    &&& event == DataEvent::Round { round: round, matches: matches }
                },
                Err(detail) => {
                    &&& *final(self) == (Poller { round_has_live: false, ..*old(self) })
                    &&& event matches DataEvent::Error(e)
                    &&& e@ == "loading round "@ + decimal(round as nat) + ": "@ + detail@
                },
            },
    {
        match result {
            Ok(matches) => {
                self.round_has_live = any_live(&matches);
                DataEvent::Round { round, matches }
            },
            Err(detail) => {
                self.round_has_live = false;
                let mut what = String::from_str("loading round ");
                push_decimal(&mut what, round as u64);
                DataEvent::Error(message(what.as_str(), detail.as_str()))
            },
        }
    }

    /// Takes the answer to a match fetch; remembers whether the match is
    /// still live (keep refreshing) and returns the event for the interface.
    pub fn on_match(&mut self, provider_id: String, result: Result<(MatchItem, PlayerStatsResponse), String>) -> (event: DataEvent)
        ensures
            match result {
                Ok((item, stats)) => {
                    &&& *final(self) == (Poller { watching_live: item_live(item), ..*old(self) })
                    &&& event == DataEvent::MatchUpdate { provider_id: provider_id, item: Box::new(item), stats: Box::new(stats) }
                },
                Err(detail) => {
                    &&& *final(self) == (Poller { watching_live: false, ..*old(self) })
                    &&& event matches DataEvent::Error(e)
                    &&& e@ == "loading match"@ + ": "@ + detail@
                },
            },
    {
        match result {
            Ok((item, stats)) => {
                self.watching_live = match_item_is_live(&item);
                DataEvent::MatchUpdate { provider_id, item: Box::new(item), stats: Box::new(stats) }
            },
            Err(detail) => {
                self.watching_live = false;
                DataEvent::Error(message("loading match", detail.as_str()))
            },
        }
    }
}

/// The event for the answer to a ladder fetch: the entries of every ladder
/// the season has, in order, or the error.
pub fn on_ladder(result: Result<Vec<LadderEntry>, String>) -> (event: DataEvent)
    ensures
        match result {
            Ok(entries) => event == DataEvent::Ladder(entries),
            Err(detail) => event matches DataEvent::Error(e) && e@ == "loading ladder"@ + ": "@ + detail@,
        },
{
    match result {
        Ok(entries) => DataEvent::Ladder(entries),
        Err(detail) => DataEvent::Error(message("loading ladder", detail.as_str())),
    }
}

/// While a match is watched, ticks refresh that match and nothing else, and
/// only while it is live.
pub proof fn law_watched_match_refreshed_while_live(p: Poller)
    requires
        p.watching is Some,
    ensures
        ticked(p).1 == (if p.watching_live { Some(Fetch::Match(p.watching.unwrap())) } else { None }),
{
}

/// Without a watched match, a tick reloads the round only on every third
/// tick, only while the round has a live match, and only the round last
/// asked for.
pub proof fn law_round_refresh_cadence(p: Poller)
    requires
        p.watching is None,
    ensures
        ticked(p).1 matches Some(f) ==> {
            &&& p.round_has_live
            &&& ticked(p).0.tick_count % FIXTURE_REFRESH_TICKS == 0
            &&& f == Fetch::Round { season_id: p.season.unwrap().id, round: p.round.unwrap() }
        },
{
}

/// Once a fetch shows the watched match is over, ticks stop refreshing it.
pub proof fn law_finished_match_no_longer_refreshed(p: Poller, item: MatchItem, q: Poller)
    requires
        p.watching is Some,
        !item_live(item),
        q == (Poller { watching_live: item_live(item), ..p }),
    ensures
        ticked(q).1 is None,
        ticked(ticked(q).0).1 is None,
{
}

} // verus!

use afl_tui::models::{
    CfsMatch, CfsScore, CfsTeamScore, CompSeason, FixtureMatch, LadderEntry, MatchItem, MatchSide,
    PlayerStatsResponse, Round, ScoreLine, Team, Venue,
};
use afl_tui::poller::{any_live, match_item_is_live, on_ladder, Cmd, DataEvent, Fetch, Poller, Step};

fn season(id: u32, current: u32) -> CompSeason {
    CompSeason { id, name: format!("Season {id}"), current_round_number: current }
}

fn blank_team() -> Team {
    Team { name: String::new(), abbreviation: String::new(), nickname: String::new() }
}

fn game(status: &str) -> FixtureMatch {
    FixtureMatch {
        provider_id: "P".into(),
        status: status.into(),
        utc_start_time: String::new(),
        round: Round { round_number: 3, name: String::new() },
        home: MatchSide { team: blank_team(), score: None },
        away: MatchSide { team: blank_team(), score: None },
        venue: Venue { name: String::new(), abbreviation: String::new(), timezone: String::new() },
    }
}

fn match_item(match_status: &str, score_status: Option<&str>) -> MatchItem {
    let line = ScoreLine { goals: 0, behinds: 0, total_score: 0 };
    MatchItem {
        match_info: CfsMatch { name: String::new(), status: match_status.into(), venue_local_start_time: String::new() },
        score: score_status.map(|s| CfsScore {
            status: s.into(),
            home_team_score: CfsTeamScore { match_score: line, period_score: vec![] },
            away_team_score: CfsTeamScore { match_score: line, period_score: vec![] },
            match_clock: None,
            weather: None,
            score_worm: None,
        }),
    }
}

fn no_stats() -> PlayerStatsResponse {
    PlayerStatsResponse { home_team_player_stats: vec![], away_team_player_stats: vec![] }
}

fn started_poller() -> Poller {
    let mut p = Poller::new();
    let steps = p.on_seasons(Ok(vec![season(85, 14), season(73, 24)]));
    assert_eq!(steps.len(), 3);
    p
}

#[test]
fn init_fetches_seasons_then_round_and_ladder_of_latest() {
    let mut p = Poller::new();
    assert!(matches!(p.on_command(Cmd::Init), Some(Fetch::Seasons)));
    let steps = p.on_seasons(Ok(vec![season(85, 0), season(73, 24)]));
    assert!(matches!(&steps[0], Step::Send(DataEvent::Season(s)) if s.id == 85));
    assert!(matches!(&steps[1], Step::Fetch(Fetch::Round { season_id: 85, round: 1 })));
    assert!(matches!(&steps[2], Step::Fetch(Fetch::Ladder { season_id: 85 })));
    assert_eq!(p.round, Some(1));
}

#[test]
fn seasons_errors() {
    let mut p = Poller::new();
    let steps = p.on_seasons(Ok(vec![]));
    assert_eq!(steps.len(), 1);
    assert!(matches!(&steps[0], Step::Send(DataEvent::Error(e)) if e == "no seasons returned by AFL API"));
    let steps = p.on_seasons(Err("HTTP status server error (503)".into()));
    assert!(matches!(&steps[0], Step::Send(DataEvent::Error(e)) if e == "loading seasons: HTTP status server error (503)"));
    assert!(p.season.is_none());
}

#[test]
fn round_load_needs_a_season() {
    let mut p = Poller::new();
    p.round_has_live = true;
    assert!(p.on_command(Cmd::LoadRound(3)).is_none());
    assert!(!p.round_has_live);
    assert_eq!(p.round, Some(3));
    assert!(p.on_command(Cmd::LoadLadder).is_none());
    let mut p = started_poller();
    assert!(matches!(p.on_command(Cmd::LoadRound(3)), Some(Fetch::Round { season_id: 85, round: 3 })));
    assert!(matches!(p.on_command(Cmd::LoadLadder), Some(Fetch::Ladder { season_id: 85 })));
}

#[test]
fn round_results_record_live_matches() {
    let mut p = started_poller();
    let ev = p.on_round(14, Ok(vec![game("CONCLUDED"), game("IN_PROGRESS")]));
    assert!(p.round_has_live);
    assert!(matches!(ev, DataEvent::Round { round: 14, ref matches } if matches.len() == 2));
    p.on_round(14, Ok(vec![game("CONCLUDED")]));
    assert!(!p.round_has_live);
    p.round_has_live = true;
    let ev = p.on_round(14, Err("timed out".into()));
    assert!(!p.round_has_live);
    assert!(matches!(ev, DataEvent::Error(ref e) if e == "loading round 14: timed out"));
}

#[test]
fn round_refresh_every_third_tick_while_live() {
    let mut p = started_poller();
    p.on_command(Cmd::LoadRound(14));
    p.on_round(14, Ok(vec![game("LIVE")]));
    let fetches: Vec<bool> = (0..6).map(|_| p.on_tick().is_some()).collect();
    assert_eq!(fetches, vec![false, false, true, false, false, true]);
    p.on_round(14, Ok(vec![game("CONCLUDED")]));
    assert!((0..6).all(|_| p.on_tick().is_none()));
}

#[test]
fn watched_match_refreshes_every_tick_while_live() {
    let mut p = started_poller();
    p.on_command(Cmd::LoadRound(14));
    p.on_round(14, Ok(vec![game("LIVE")]));
    match p.on_command(Cmd::Watch("CD_M1".into())) {
        Some(Fetch::Match(id)) => assert_eq!(id, "CD_M1"),
        _ => panic!("expected a match fetch"),
    }
    let ev = p.on_match("CD_M1".into(), Ok((match_item("SCHEDULED", Some("LIVE")), no_stats())));
    assert!(p.watching_live);
    assert!(matches!(ev, DataEvent::MatchUpdate { ref provider_id, .. } if provider_id == "CD_M1"));
    for _ in 0..4 {
        assert!(matches!(p.on_tick(), Some(Fetch::Match(ref id)) if id == "CD_M1"));
    }
    p.on_match("CD_M1".into(), Ok((match_item("CONCLUDED", Some("CONCLUDED")), no_stats())));
    assert!(!p.watching_live);
    for _ in 0..4 {
        assert!(p.on_tick().is_none());
    }
    p.on_command(Cmd::Unwatch);
    let fetches: Vec<bool> = (0..3).map(|_| p.on_tick().is_some()).collect();
    assert_eq!(fetches.iter().filter(|f| **f).count(), 1);
}

#[test]
fn match_errors_stop_refreshing() {
    let mut p = started_poller();
    p.on_command(Cmd::Watch("CD_M1".into()));
    p.watching_live = true;
    let ev = p.on_match("CD_M1".into(), Err("401 Unauthorized".into()));
    assert!(!p.watching_live);
    assert!(matches!(ev, DataEvent::Error(ref e) if e == "loading match: 401 Unauthorized"));
}

#[test]
fn tick_counter_wraps() {
    let mut p = Poller::new();
    p.tick_count = u32::MAX;
    p.on_tick();
    assert_eq!(p.tick_count, 0);
}

#[test]
fn liveness_of_a_match_item() {
    assert!(match_item_is_live(&match_item("LIVE", None)));
    assert!(match_item_is_live(&match_item("SCHEDULED", Some("PERIOD_BREAK"))));
    assert!(!match_item_is_live(&match_item("CONCLUDED", Some("CONCLUDED"))));
    assert!(!match_item_is_live(&match_item("", Some(""))));
    assert!(any_live(&vec![game("x"), game("LIVE")]));
    assert!(!any_live(&vec![]));
}

#[test]
fn ladder_results() {
    let entry = LadderEntry { rank: 1, team: blank_team(), premiership_points: 0, percentage: 0 };
    assert!(matches!(on_ladder(Ok(vec![entry])), DataEvent::Ladder(ref e) if e.len() == 1));
    assert!(matches!(on_ladder(Err("boom".into())), DataEvent::Error(ref e) if e == "loading ladder: boom"));
}

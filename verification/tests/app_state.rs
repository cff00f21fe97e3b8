use afl_tui::app::{handle_key, App, KeyCode, MainTab, Screen, StatsTab, MAX_ROUND, MIN_ROUND};
use afl_tui::models::{
    CfsMatch, CfsScore, CfsTeamScore, Clearances, CompSeason, FixtureMatch, MatchItem, MatchSide,
    PlayerCore, PlayerEntry, PlayerInner, PlayerName, PlayerOuter, PlayerStatsResponse,
    PlayerStatsWrap, Round, ScoreLine, ScoreWorm, ScoringEvent, SimpleScore, StatKey, Stats, Team,
    Venue,
};
use afl_tui::poller::{Cmd, DataEvent};

fn team(name: &str, abbr: &str, nick: &str) -> Team {
    Team { name: name.into(), abbreviation: abbr.into(), nickname: nick.into() }
}

fn fixture(id: &str, status: &str) -> FixtureMatch {
    FixtureMatch {
        provider_id: id.into(),
        status: status.into(),
        utc_start_time: "2026-06-11T09:30:00.000+0000".into(),
        round: Round { round_number: 14, name: "Round 14".into() },
        home: MatchSide {
            team: team("Western Bulldogs", "WB", "Bulldogs"),
            score: Some(SimpleScore { goals: 9, behinds: 10, total_score: 64 }),
        },
        away: MatchSide { team: team("Adelaide Crows", "ADEL", "Crows"), score: None },
        venue: Venue { name: "Marvel Stadium".into(), abbreviation: "MRVL".into(), timezone: "Australia/Melbourne".into() },
    }
}

fn round_of_matches() -> Vec<FixtureMatch> {
    vec![
        fixture("CD_M20260141401", "CONCLUDED"),
        fixture("CD_M20260141402", "SCHEDULED"),
        fixture("CD_M20260141403", "LIVE"),
    ]
}

fn event(period: u32, secs: i64, kind: &str, home: i64, away: i64) -> ScoringEvent {
    ScoringEvent {
        period_number: period,
        period_seconds: secs,
        score_type: kind.into(),
        score_value: if kind == "GOAL" { 6 } else { 1 },
        aggregate_home_score: home,
        aggregate_away_score: away,
        team_name: None,
        player_score: None,
    }
}

fn item(events: Vec<ScoringEvent>) -> MatchItem {
    MatchItem {
        match_info: CfsMatch {
            name: "Western Bulldogs Vs Adelaide Crows".into(),
            status: "CONCLUDED".into(),
            venue_local_start_time: String::new(),
        },
        score: Some(CfsScore {
            status: "CONCLUDED".into(),
            home_team_score: CfsTeamScore { match_score: ScoreLine { goals: 9, behinds: 10, total_score: 64 }, period_score: vec![] },
            away_team_score: CfsTeamScore { match_score: ScoreLine { goals: 18, behinds: 13, total_score: 121 }, period_score: vec![] },
            match_clock: None,
            weather: None,
            score_worm: Some(ScoreWorm { scoring_events: events }),
        }),
    }
}

fn no_stats() -> PlayerStatsResponse {
    PlayerStatsResponse { home_team_player_stats: vec![], away_team_player_stats: vec![] }
}

fn update(provider_id: &str, item: MatchItem, stats: PlayerStatsResponse) -> DataEvent {
    DataEvent::MatchUpdate { provider_id: provider_id.to_string(), item: Box::new(item), stats: Box::new(stats) }
}

fn open_fixture_match(app: &mut App) -> String {
    app.apply(DataEvent::Round { round: 0, matches: round_of_matches() });
    app.open_match().unwrap()
}

#[test]
fn feed_updates_when_new_scoring_events_arrive() {
    let mut app = App::new();
    let id = open_fixture_match(&mut app);
    assert!(app.scoring_events().is_empty());

    let mut events = vec![event(1, 120, "GOAL", 6, 0), event(1, 300, "BEHIND", 6, 1), event(2, 45, "GOAL", 6, 7)];
    app.apply(update(&id, item(events.clone_events()), no_stats()));
    let before = app.scoring_events().len();
    assert!(before > 0);

    // The next live poll: same match, one more goal on the worm.
    events.push(event(2, 1900, "GOAL", 12, 7));
    app.apply(update(&id, item(events), no_stats()));

    assert_eq!(app.scoring_events().len(), before + 1);
    assert_eq!(app.scoring_events().last().unwrap().score_type, "GOAL");
}

trait CloneEvents {
    fn clone_events(&self) -> Vec<ScoringEvent>;
}

impl CloneEvents for Vec<ScoringEvent> {
    fn clone_events(&self) -> Vec<ScoringEvent> {
        self.iter()
            .map(|e| event(e.period_number, e.period_seconds, &e.score_type, e.aggregate_home_score, e.aggregate_away_score))
            .collect()
    }
}

#[test]
fn updates_for_other_matches_are_ignored() {
    let mut app = App::new();
    let _id = open_fixture_match(&mut app);
    app.apply(update("CD_MSOMEOTHERGAME", item(vec![event(1, 10, "GOAL", 6, 0)]), no_stats()));
    assert!(app.scoring_events().is_empty());
}

#[test]
fn new_app_starts_on_the_fixture_loading() {
    let app = App::new();
    assert_eq!(app.screen, Screen::Fixture);
    assert_eq!(app.main_tab, MainTab::Fixture);
    assert!(app.loading);
    assert_eq!(app.round, 0);
    assert_eq!(app.sort, StatKey::Disposals);
    assert_eq!(app.tab, StatsTab::TeamStats);
    assert!(!app.should_quit);
}

#[test]
fn season_sets_the_current_round_at_least_one() {
    let mut app = App::new();
    app.apply(DataEvent::Season(CompSeason { id: 85, name: "2026 Toyota AFL Premiership".into(), current_round_number: 0 }));
    assert_eq!(app.round, MIN_ROUND);
    app.apply(DataEvent::Season(CompSeason { id: 85, name: "2026 Toyota AFL Premiership".into(), current_round_number: 14 }));
    assert_eq!(app.round, 14);
    assert_eq!(app.season.as_ref().unwrap().id, 85);
}

#[test]
fn stale_round_responses_are_ignored() {
    let mut app = App::new();
    app.round = 5;
    app.apply(DataEvent::Round { round: 4, matches: round_of_matches() });
    assert!(app.matches.is_empty());
    assert!(app.loading);
    app.apply(DataEvent::Round { round: 5, matches: round_of_matches() });
    assert_eq!(app.matches.len(), 3);
    assert!(!app.loading);
}

#[test]
fn a_shorter_round_moves_the_selection_to_its_last_match() {
    let mut app = App::new();
    app.apply(DataEvent::Round { round: 0, matches: round_of_matches() });
    app.selected = 2;
    app.apply(DataEvent::Round { round: 0, matches: vec![fixture("A", "LIVE")] });
    assert_eq!(app.selected, 0);
    app.apply(DataEvent::Round { round: 0, matches: vec![] });
    assert_eq!(app.selected, 0);
}

#[test]
fn errors_stop_loading_and_are_shown() {
    let mut app = App::new();
    app.apply(DataEvent::Error("loading round 3: timed out".into()));
    assert!(!app.loading);
    assert_eq!(app.error.as_deref(), Some("loading round 3: timed out"));
    // A fresh round clears it.
    app.apply(DataEvent::Round { round: 0, matches: vec![] });
    assert!(app.error.is_none());
}

#[test]
fn ladder_event_replaces_the_ladder() {
    let mut app = App::new();
    app.apply(DataEvent::Ladder(vec![afl_tui::models::LadderEntry {
        rank: 1,
        team: team("Geelong Cats", "GEEL", "Cats"),
        premiership_points: 40.0f64.to_bits(),
        percentage: 130.5f64.to_bits(),
    }]));
    assert_eq!(app.ladder.len(), 1);
    assert_eq!(f64::from_bits(app.ladder[0].percentage), 130.5);
}

#[test]
fn change_round_clamps_and_resets() {
    let mut app = App::new();
    app.round = 1;
    assert_eq!(app.change_round(-1), None);
    app.apply(DataEvent::Round { round: 1, matches: round_of_matches() });
    app.selected = 2;
    assert_eq!(app.change_round(1), Some(2));
    assert_eq!(app.round, 2);
    assert!(app.matches.is_empty());
    assert_eq!(app.selected, 0);
    assert!(app.loading);
    app.round = MAX_ROUND;
    assert_eq!(app.change_round(5), None);
    assert_eq!(app.change_round(-40), Some(MIN_ROUND));
    // A step back undoes a step forward.
    app.round = 10;
    app.change_round(3);
    app.change_round(-3);
    assert_eq!(app.round, 10);
}

#[test]
fn open_and_close_match() {
    let mut app = App::new();
    assert_eq!(app.open_match(), None);
    app.apply(DataEvent::Round { round: 0, matches: round_of_matches() });
    app.selected = 1;
    app.player_row = 7;
    let id = app.open_match().unwrap();
    assert_eq!(id, "CD_M20260141402");
    assert_eq!(app.screen, Screen::Match);
    assert_eq!(app.player_row, 0);
    assert_eq!(app.match_data.as_ref().unwrap().fixture.provider_id, "CD_M20260141402");
    app.close_match();
    assert_eq!(app.screen, Screen::Fixture);
    assert!(app.match_data.is_none());
    assert_eq!(app.selected, 1);
}

#[test]
fn selected_match_follows_the_selection() {
    let mut app = App::new();
    assert!(app.selected_match().is_none());
    app.apply(DataEvent::Round { round: 0, matches: round_of_matches() });
    app.selected = 2;
    assert_eq!(app.selected_match().unwrap().provider_id, "CD_M20260141403");
}

fn player(given: &str, surname: &str, jumper: i64, disposals: Option<f64>, goals: Option<f64>) -> PlayerEntry {
    PlayerEntry {
        player: PlayerOuter {
            player: PlayerInner {
                position: "MID".into(),
                player: PlayerCore { player_name: PlayerName { given_name: given.into(), surname: surname.into() } },
            },
            jumper_number: jumper,
        },
        player_stats: PlayerStatsWrap {
            stats: Stats {
                goals: goals.map(f64::to_bits),
                behinds: None,
                kicks: None,
                handballs: None,
                disposals: disposals.map(f64::to_bits),
                marks: None,
                tackles: None,
                hitouts: None,
                clearances: Some(Clearances { centre_clearances: None, stoppage_clearances: None, total_clearances: Some(3.0f64.to_bits()) }),
                inside50s: None,
                rebound50s: None,
                contested_possessions: None,
                uncontested_possessions: None,
                clangers: None,
                frees_for: None,
                frees_against: None,
                disposal_efficiency: None,
                dream_team_points: None,
                metres_gained: None,
                goal_assists: None,
                marks_inside50: None,
                contested_marks: None,
                intercepts: None,
                score_involvements: None,
                turnovers: None,
            },
        },
    }
}

fn app_with_players() -> App {
    let mut app = App::new();
    app.apply(DataEvent::Round { round: 0, matches: round_of_matches() });
    let id = app.open_match().unwrap();
    let stats = PlayerStatsResponse {
        home_team_player_stats: vec![
            player("Marcus", "Bontempelli", 4, Some(29.0), Some(2.0)),
            player("Adam", "Treloar", 1, Some(31.0), None),
            player("Tom", "Liberatore", 21, Some(29.0), Some(0.0)),
            player("Aaron", "Naughton", 33, None, Some(4.0)),
        ],
        away_team_player_stats: vec![player("Jordan", "Dawson", 12, Some(25.0), Some(1.0))],
    };
    app.apply(update(&id, item(vec![]), stats));
    app
}

#[test]
fn sorted_players_best_first_keeping_roster_order_on_ties() {
    let mut app = app_with_players();
    assert!(app.sorted_players().is_empty()); // Team Stats tab
    app.tab = StatsTab::HomePlayers;
    let names: Vec<String> = app.sorted_players().iter().map(|p| p.name()).collect();
    assert_eq!(names, vec!["A. Treloar", "M. Bontempelli", "T. Liberatore", "A. Naughton"]);
    app.sort = StatKey::Goals;
    let jumpers: Vec<i64> = app.sorted_players().iter().map(|p| p.jumper()).collect();
    assert_eq!(jumpers, vec![33, 4, 1, 21]);
    app.tab = StatsTab::AwayPlayers;
    assert_eq!(app.sorted_players().len(), 1);
    app.tab = StatsTab::TeamStats;
    assert!(app.sorted_players().is_empty());
}

#[test]
fn fixture_keys_move_select_and_open() {
    let mut app = App::new();
    app.apply(DataEvent::Season(CompSeason { id: 85, name: "2026".into(), current_round_number: 14 }));
    app.apply(DataEvent::Round { round: 14, matches: round_of_matches() });
    assert!(handle_key(&mut app, KeyCode::Down, false).is_none());
    assert!(handle_key(&mut app, KeyCode::Char('j'), false).is_none());
    assert!(handle_key(&mut app, KeyCode::Down, false).is_none());
    assert_eq!(app.selected, 2);
    handle_key(&mut app, KeyCode::Up, false);
    assert_eq!(app.selected, 1);
    handle_key(&mut app, KeyCode::Char('k'), false);
    handle_key(&mut app, KeyCode::Char('k'), false);
    assert_eq!(app.selected, 0);
    match handle_key(&mut app, KeyCode::Right, false) {
        Some(Cmd::LoadRound(15)) => {}
        _ => panic!("expected a load of round 15"),
    }
    assert!(app.matches.is_empty());
    match handle_key(&mut app, KeyCode::Char('h'), false) {
        Some(Cmd::LoadRound(14)) => {}
        _ => panic!("expected a load of round 14"),
    }
    match handle_key(&mut app, KeyCode::Char('r'), false) {
        Some(Cmd::LoadRound(14)) => {}
        _ => panic!("expected a reload of round 14"),
    }
    assert!(app.loading);
    assert!(handle_key(&mut app, KeyCode::Enter, false).is_none()); // nothing listed yet
    app.apply(DataEvent::Round { round: 14, matches: round_of_matches() });
    match handle_key(&mut app, KeyCode::Enter, false) {
        Some(Cmd::Watch(id)) => assert_eq!(id, "CD_M20260141401"),
        _ => panic!("expected a watch"),
    }
    assert_eq!(app.screen, Screen::Match);
}

#[test]
fn tab_on_the_fixture_screen_does_nothing() {
    let mut app = App::new();
    assert!(handle_key(&mut app, KeyCode::Tab, false).is_none());
    assert_eq!(app.main_tab, MainTab::Fixture);
    assert_eq!(app.screen, Screen::Fixture);
}

#[test]
fn quit_keys() {
    let mut app = App::new();
    handle_key(&mut app, KeyCode::Esc, false);
    assert!(app.should_quit);
    let mut app = app_with_players();
    handle_key(&mut app, KeyCode::Esc, false); // leaves the match
    assert!(!app.should_quit);
    let mut app = app_with_players();
    handle_key(&mut app, KeyCode::Char('c'), true);
    assert!(app.should_quit);
    let mut app = app_with_players();
    handle_key(&mut app, KeyCode::Char('q'), false);
    assert!(app.should_quit);
}

#[test]
fn match_keys_cycle_tabs_scroll_sort_and_leave() {
    let mut app = app_with_players();
    handle_key(&mut app, KeyCode::Char('g'), false); // not a players tab: no sort change
    assert_eq!(app.sort, StatKey::Disposals);
    handle_key(&mut app, KeyCode::Tab, false);
    assert_eq!(app.tab, StatsTab::HomePlayers);
    handle_key(&mut app, KeyCode::Down, false);
    handle_key(&mut app, KeyCode::Down, false);
    assert_eq!(app.player_row, 2);
    handle_key(&mut app, KeyCode::Char('g'), false);
    assert_eq!(app.sort, StatKey::Goals);
    handle_key(&mut app, KeyCode::Char('c'), false);
    assert_eq!(app.sort, StatKey::Clearances);
    handle_key(&mut app, KeyCode::Char('x'), false);
    assert_eq!(app.sort, StatKey::Clearances);
    match handle_key(&mut app, KeyCode::Char('r'), false) {
        Some(Cmd::Watch(id)) => assert_eq!(id, "CD_M20260141401"),
        _ => panic!("expected a refresh"),
    }
    handle_key(&mut app, KeyCode::Tab, false);
    assert_eq!(app.tab, StatsTab::AwayPlayers);
    assert_eq!(app.player_row, 0);
    handle_key(&mut app, KeyCode::Down, false);
    assert_eq!(app.player_row, 1);
    handle_key(&mut app, KeyCode::Up, false);
    handle_key(&mut app, KeyCode::Up, false);
    assert_eq!(app.player_row, 0);
    handle_key(&mut app, KeyCode::Tab, false);
    assert_eq!(app.tab, StatsTab::TeamStats);
    match handle_key(&mut app, KeyCode::Backspace, false) {
        Some(Cmd::Unwatch) => {}
        _ => panic!("expected unwatch"),
    }
    assert_eq!(app.screen, Screen::Fixture);
    assert!(app.match_data.is_none());
}

#[test]
fn stats_tab_cycles_through_three_tabs() {
    let mut t = StatsTab::TeamStats;
    let mut seen = vec![];
    for _ in 0..3 {
        seen.push(t.index());
        t = t.next();
    }
    assert_eq!(seen, vec![0, 1, 2]);
    assert_eq!(t, StatsTab::TeamStats);
}

#[test]
fn opens_on_the_current_round_of_the_latest_season() {
    let mut app = App::new();
    app.apply(DataEvent::Season(CompSeason { id: 85, name: "2026".into(), current_round_number: 14 }));
    // The poller loads round 14 first; its answer is shown.
    app.apply(DataEvent::Round { round: 14, matches: round_of_matches() });
    assert_eq!(app.round, 14);
    assert_eq!(app.matches.len(), 3);
    assert!(!app.loading);
}

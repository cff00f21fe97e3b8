use afl_tui::api::{
    comp_seasons_url, join_ladders, ladder_url, match_item_url, needs_token_refresh,
    player_stats_url, reusable_token, round_matches_url, token_url,
};
use afl_tui::models::{Ladder, LadderEntry, Team};
use afl_tui::time::{format_start_time, parse_utc, start_time_text};

#[test]
fn service_urls() {
    assert_eq!(comp_seasons_url(), "https://aflapi.afl.com.au/afl/v2/competitions/1/compseasons?pageSize=20");
    assert_eq!(
        round_matches_url(85, 14),
        "https://aflapi.afl.com.au/afl/v2/matches?competitionId=1&compSeasonId=85&roundNumber=14&pageSize=30"
    );
    assert_eq!(ladder_url(85), "https://aflapi.afl.com.au/afl/v2/compseasons/85/ladders");
    assert_eq!(match_item_url("CD_M20260141401"), "https://api.afl.com.au/cfs/afl/matchItem/CD_M20260141401");
    assert_eq!(player_stats_url("CD_M20260141401"), "https://api.afl.com.au/cfs/afl/playerStats/match/CD_M20260141401");
    assert_eq!(token_url(), "https://api.afl.com.au/cfs/afl/WMCTok");
}

#[test]
fn token_refresh_decisions() {
    assert!(needs_token_refresh(401));
    assert!(needs_token_refresh(403));
    assert!(!needs_token_refresh(200));
    assert!(!needs_token_refresh(404));
    let cached = Some("abc".to_string());
    assert_eq!(reusable_token(false, &cached), Some("abc".to_string()));
    assert_eq!(reusable_token(true, &cached), None);
    assert_eq!(reusable_token(false, &None), None);
}

fn entry(rank: u32, name: &str) -> LadderEntry {
    LadderEntry {
        rank,
        team: Team { name: name.into(), abbreviation: String::new(), nickname: String::new() },
        premiership_points: 0,
        percentage: 0,
    }
}

#[test]
fn ladders_are_joined_in_order() {
    let joined = join_ladders(vec![
        Ladder { entries: vec![entry(1, "Geelong Cats"), entry(2, "Sydney Swans")] },
        Ladder { entries: vec![] },
        Ladder { entries: vec![entry(3, "Hawthorn")] },
    ]);
    let names: Vec<&str> = joined.iter().map(|e| e.team.name.as_str()).collect();
    assert_eq!(names, vec!["Geelong Cats", "Sydney Swans", "Hawthorn"]);
    assert!(join_ladders(vec![]).is_empty());
}

#[test]
fn utc_timestamps_parse_in_both_shapes() {
    // 2026-06-11T09:30:00Z is 1781170200 seconds after the epoch.
    assert_eq!(parse_utc("2026-06-11T09:30:00.000+0000"), Some(1781170200));
    assert_eq!(parse_utc("2026-06-11T19:30:00.000+1000"), Some(1781170200));
    assert_eq!(parse_utc("2026-06-11T09:30:00"), Some(1781170200));
    assert_eq!(parse_utc("TBC"), None);
    assert_eq!(parse_utc(""), None);
}

#[test]
fn start_times_fall_back_to_the_raw_text() {
    assert_eq!(format_start_time("TBC"), "TBC");
    let shown = format_start_time("2026-06-11T09:30:00.000+0000");
    assert_ne!(shown, "2026-06-11T09:30:00.000+0000");
    assert!(shown.ends_with("AM") || shown.ends_with("PM"));
    assert_eq!(start_time_text(None, "x"), "x");
    assert_eq!(start_time_text(Some("Thu 11 Jun  7:30PM".into()), "x"), "Thu 11 Jun  7:30PM");
}

#[test]
fn start_times_have_the_display_shape() {
    for utc in ["2026-06-11T09:30:00.000+0000", "2026-06-11T09:30:00", "1999-12-31T23:59:59.000+1000"] {
        let shown = format_start_time(utc);
        let chars: Vec<char> = shown.chars().collect();
        assert_eq!(chars.len(), 18, "{shown}");
        assert_eq!(chars[13], ':');
        assert!(shown.ends_with("AM") || shown.ends_with("PM"));
        assert_eq!(chars[3], ' ');
        assert_eq!(chars[6], ' ');
        assert_eq!(chars[10], ' ');
    }
}

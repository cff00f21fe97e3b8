use afl_tui::models::{
    float_order_key, initial, status_is_concluded, status_is_live, FixtureMatch, MatchSide,
    PlayerName, Round, ScoringEvent, StatKey, Stats, Clearances, Team, Venue, WormPlayer,
    WormPlayerScore, WormTeam,
};
use afl_tui::text::{eq_ignore_ascii_case, format_clock, period_label, signed_to_string, str_eq};

#[test]
fn clock_text_is_minutes_and_two_digit_seconds() {
    assert_eq!(format_clock(0), "0:00");
    assert_eq!(format_clock(65), "1:05");
    assert_eq!(format_clock(1234), "20:34");
    assert_eq!(format_clock(600), "10:00");
    // Rust's truncating division and remainder, as "{}:{:02}" prints them.
    assert_eq!(format_clock(-5), "0:-5");
    assert_eq!(format_clock(-65), "-1:-5");
    assert_eq!(format_clock(-125), "-2:-5");
    assert_eq!(format_clock(-600), "-10:00");
    assert_eq!(format_clock(i64::MIN), format!("{}:{:02}", i64::MIN / 60, i64::MIN % 60));
}

#[test]
fn period_labels() {
    assert_eq!(period_label(1), "Q1");
    assert_eq!(period_label(4), "Q4");
    assert_eq!(period_label(0), "Q0");
    assert_eq!(period_label(5), "ET");
}

#[test]
fn decimal_rendering() {
    assert_eq!(signed_to_string(0), "0");
    assert_eq!(signed_to_string(121), "121");
    assert_eq!(signed_to_string(-7), "-7");
    assert_eq!(signed_to_string(i64::MAX), i64::MAX.to_string());
    assert_eq!(signed_to_string(i64::MIN), i64::MIN.to_string());
}

#[test]
fn string_comparisons() {
    assert!(str_eq("LIVE", "LIVE"));
    assert!(!str_eq("LIVE", "LIVEx"));
    assert!(!str_eq("LIVE", "live"));
    assert!(eq_ignore_ascii_case("Cats", "cATS"));
    assert!(eq_ignore_ascii_case("", ""));
    assert!(!eq_ignore_ascii_case("Cats", "Cat"));
    assert!(!eq_ignore_ascii_case("Äb", "äb"));
    assert!(eq_ignore_ascii_case("Äb", "ÄB"));
}

#[test]
fn statuses() {
    for s in ["LIVE", "IN_PROGRESS", "PERIOD_BREAK"] {
        assert!(status_is_live(s));
        assert!(!status_is_concluded(s));
    }
    for s in ["CONCLUDED", "FULL_TIME", "POST_MATCH"] {
        assert!(status_is_concluded(s));
        assert!(!status_is_live(s));
    }
    for s in ["", "SCHEDULED", "live", "UNCONFIRMED_TEAMS"] {
        assert!(!status_is_live(s));
        assert!(!status_is_concluded(s));
    }
}

fn blank_team() -> Team {
    Team { name: String::new(), abbreviation: String::new(), nickname: String::new() }
}

fn fixture_with_status(status: &str) -> FixtureMatch {
    FixtureMatch {
        provider_id: "X".into(),
        status: status.into(),
        utc_start_time: String::new(),
        round: Round { round_number: 1, name: String::new() },
        home: MatchSide { team: blank_team(), score: None },
        away: MatchSide { team: blank_team(), score: None },
        venue: Venue { name: String::new(), abbreviation: String::new(), timezone: String::new() },
    }
}

#[test]
fn fixture_status_checks() {
    assert!(fixture_with_status("PERIOD_BREAK").is_live());
    assert!(!fixture_with_status("PERIOD_BREAK").is_concluded());
    assert!(fixture_with_status("POST_MATCH").is_concluded());
}

fn scoring(kind: &str, home: i64, away: i64) -> ScoringEvent {
    ScoringEvent {
        period_number: 2,
        period_seconds: 300,
        score_type: kind.into(),
        score_value: 6,
        aggregate_home_score: home,
        aggregate_away_score: away,
        team_name: None,
        player_score: None,
    }
}

#[test]
fn scoring_event_accessors() {
    let mut e = scoring("goal", 30, 42);
    assert_eq!(e.margin(), -12);
    assert!(e.is_goal());
    assert_eq!(e.team_abbr(), "");
    assert_eq!(e.player_name(), "");
    e.team_name = Some(WormTeam { team_abbr: "WB".into() });
    e.player_score = Some(WormPlayerScore {
        player: WormPlayer { player_name: PlayerName { given_name: "Marcus".into(), surname: "Bontempelli".into() } },
    });
    assert_eq!(e.team_abbr(), "WB");
    assert_eq!(e.player_name(), "M. Bontempelli");
    assert!(!scoring("BEHIND", 1, 0).is_goal());
    assert!(!scoring("GOALS", 1, 0).is_goal());
}

#[test]
fn initials() {
    assert_eq!(initial("Marcus"), "M");
    assert_eq!(initial(""), "");
    assert_eq!(initial("Ömer"), "Ö");
}

fn empty_stats() -> Stats {
    Stats {
        goals: None, behinds: None, kicks: None, handballs: None, disposals: None, marks: None,
        tackles: None, hitouts: None, clearances: None, inside50s: None, rebound50s: None,
        contested_possessions: None, uncontested_possessions: None, clangers: None,
        frees_for: None, frees_against: None, disposal_efficiency: None, dream_team_points: None,
        metres_gained: None, goal_assists: None, marks_inside50: None, contested_marks: None,
        intercepts: None, score_involvements: None, turnovers: None,
    }
}

#[test]
fn stats_read_the_field_and_zero_when_missing() {
    let mut s = empty_stats();
    assert_eq!(f64::from_bits(s.get(StatKey::Disposals)), 0.0);
    s.disposals = Some(29.0f64.to_bits());
    s.kicks = Some(16.0f64.to_bits());
    s.disposal_efficiency = Some(72.4f64.to_bits());
    assert_eq!(f64::from_bits(s.get(StatKey::Disposals)), 29.0);
    assert_eq!(f64::from_bits(s.get(StatKey::Kicks)), 16.0);
    assert_eq!(f64::from_bits(s.get(StatKey::DisposalEfficiency)), 72.4);
    assert_eq!(f64::from_bits(s.get(StatKey::Clearances)), 0.0);
    s.clearances = Some(Clearances { centre_clearances: Some(1.0f64.to_bits()), stoppage_clearances: None, total_clearances: Some(5.0f64.to_bits()) });
    assert_eq!(f64::from_bits(s.get(StatKey::Clearances)), 5.0);
}

#[test]
fn float_order_follows_numeric_order() {
    let values = [-1.0e300, -2.5, -1.0, -0.0, 0.0, 1.0e-300, 0.5, 29.0, 31.0, f64::INFINITY];
    for a in values {
        for b in values {
            let ka = float_order_key(a.to_bits());
            let kb = float_order_key(b.to_bits());
            assert_eq!(a < b, ka < kb, "{a} {b}");
            assert_eq!(a == b, ka == kb, "{a} {b}");
        }
    }
    assert_eq!(float_order_key(f64::NEG_INFINITY.to_bits()) < float_order_key((-1.0e300f64).to_bits()), true);
}

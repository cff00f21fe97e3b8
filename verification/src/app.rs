//! The interface state: which screen and tab are shown, the round being
//! browsed, the open match, and how data from the poller and key presses
//! change it.

use vstd::prelude::*;
use crate::models::{
    float_order, float_order_key, CompSeason, FixtureMatch, LadderEntry, MatchItem, PlayerEntry,
    PlayerStatsResponse, ScoringEvent, StatKey,
};
use crate::ordering::{is_stable_descending, law_stable_descending_unique, stable_descending_order};
use crate::poller::{Cmd, DataEvent};

verus! {

pub const MIN_ROUND: u32 = 1;
pub const MAX_ROUND: u32 = 30;

#[verifier::external_type_specification]
#[verifier::external_body]
pub struct ExInstant(std::time::Instant);

/// The current instant, read from the system's monotonic clock
/// (`std::time::Instant::now`). Nothing is promised of the value.
#[verifier::external_body]
fn now() -> std::time::Instant {
    std::time::Instant::now()
}

#[derive(Debug, Clone, Copy, PartialEq, Eq, Structural)]
pub enum Screen {
    Fixture,
    Match,
}

#[derive(Debug, Clone, Copy, PartialEq, Eq, Structural)]
pub enum MainTab {
    Fixture,
    Ladder,
}

#[derive(Debug, Clone, Copy, PartialEq, Eq, Structural)]
pub enum StatsTab {
    TeamStats,
    HomePlayers,
    AwayPlayers,
}

/// The tab that Tab moves to: Team Stats, Home Players, Away Players, and
/// round again.
pub open spec fn following_tab(t: StatsTab) -> StatsTab {
    match t {
        StatsTab::TeamStats => StatsTab::HomePlayers,
        StatsTab::HomePlayers => StatsTab::AwayPlayers,
        StatsTab::AwayPlayers => StatsTab::TeamStats,
    }
}

/// The position of a tab in the tab bar.
pub open spec fn tab_position(t: StatsTab) -> int {
    match t {
        StatsTab::TeamStats => 0,
        StatsTab::HomePlayers => 1,
        StatsTab::AwayPlayers => 2,
    }
}

impl StatsTab {
    pub fn next(self) -> (r: Self)
        ensures
            r == following_tab(self),
    {
        match self {
            Self::TeamStats => Self::HomePlayers,
            Self::HomePlayers => Self::AwayPlayers,
            Self::AwayPlayers => Self::TeamStats,
        }
    }

    pub fn index(self) -> (r: usize)
        ensures
            r == tab_position(self),
    {
        match self {
            Self::TeamStats => 0,
            Self::HomePlayers => 1,
            Self::AwayPlayers => 2,
        }
    }
}

/// Three presses of Tab come back to the tab one started on, and each press
/// moves one place right in the tab bar, wrapping after the last.
pub proof fn law_tab_cycle(t: StatsTab)
    ensures
        following_tab(following_tab(following_tab(t))) == t,
        tab_position(following_tab(t)) == (tab_position(t) + 1) % 3,
        0 <= tab_position(t) < 3,
{
}

/// Distinct tabs sit at distinct places in the tab bar.
pub proof fn law_tab_positions_distinct(s: StatsTab, t: StatsTab)
    requires
        s != t,
    ensures
        tab_position(s) != tab_position(t),
{
}

pub struct MatchData {
    pub fixture: FixtureMatch,
    pub item: Option<MatchItem>,
    pub stats: Option<PlayerStatsResponse>,
    pub last_updated: Option<std::time::Instant>,
}

pub struct App {
    pub screen: Screen,
    pub main_tab: MainTab,
    pub season: Option<CompSeason>,
    pub round: u32,
    pub matches: Vec<FixtureMatch>,
    pub selected: usize,
    pub loading: bool,
    pub ladder: Vec<LadderEntry>,
    pub match_data: Option<MatchData>,
    pub tab: StatsTab,
    pub sort: StatKey,
    pub player_row: usize,
    pub error: Option<String>,
    pub should_quit: bool,
}

/// The round that a step of `delta` from `round` lands on, kept within the
/// season's rounds.
pub open spec fn clamped_round(round: int, delta: int) -> int {
    let r = round + delta;
    if r < MIN_ROUND { MIN_ROUND as int } else if r > MAX_ROUND { MAX_ROUND as int } else { r }
}

/// The selection that a freshly loaded list of `len` matches keeps:
/// the old one when it is still in the list, else the last match.
pub open spec fn kept_selection(selected: int, len: int) -> int {
    if selected >= len {
        if len == 0 { 0 } else { len - 1 }
    } else {
        selected
    }
}

/// The events of the open match's score worm, or none.
pub open spec fn worm_events(app: App) -> Seq<ScoringEvent> {
    match app.match_data {
        Some(md) => match md.item {
            Some(item) => match item.score {
                Some(score) => match score.score_worm {
                    Some(worm) => worm.scoring_events@,
                    None => Seq::empty(),
                },
                None => Seq::empty(),
            },
            None => Seq::empty(),
        },
        None => Seq::empty(),
    }
}

/// How an event from the poller changes the interface state.
pub open spec fn applied(old: App, event: DataEvent, new: App) -> bool {
    match event {
        DataEvent::Season(s) => new == (App {
            round: if s.current_round_number >= MIN_ROUND { s.current_round_number } else { MIN_ROUND },
            season: Some(s),
            ..old
        }),
        DataEvent::Round { round, matches } => if round == old.round {
            new == (App {
                loading: false,
                error: None,
                selected: kept_selection(old.selected as int, matches.len() as int) as usize,
                matches: matches,
                ..old
            })
        } else {
            // A response for a round the user has moved away from is stale.
            new == old
        },
        DataEvent::Ladder(entries) => new == (App { ladder: entries, ..old }),
        DataEvent::MatchUpdate { provider_id, item, stats } => match old.match_data {
            Some(md) => if md.fixture.provider_id@ == provider_id@ {
                &&& new.match_data is Some
                &&& new.match_data.unwrap().last_updated is Some
                &&& new == (App {
                    match_data: Some(MatchData {
                        item: Some(*item),
                        stats: Some(*stats),
                        last_updated: new.match_data.unwrap().last_updated,
                        ..md
                    }),
                    error: None,
                    ..old
                })
            } else {
                // An update for a match other than the open one is ignored.
                new == old
            },
            None => new == old,
        },
        DataEvent::Error(e) => new == (App { loading: false, error: Some(e), ..old }),
    }
}

/// The state after opening the selected match, and the id to watch; no
/// change when nothing is selected.
pub open spec fn opened(app: App) -> (App, Option<String>) {
    if app.selected < app.matches.len() {
        let fixture = app.matches[app.selected as int];
        (App {
            match_data: Some(MatchData { fixture: fixture, item: None, stats: None, last_updated: None }),
            screen: Screen::Match,
            tab: StatsTab::TeamStats,
            player_row: 0,
            ..app
        }, Some(fixture.provider_id))
    } else {
        (app, None)
    }
}

/// The state after leaving the match screen.
pub open spec fn closed(app: App) -> App {
    App { screen: Screen::Fixture, match_data: None, error: None, ..app }
}

/// A step of `delta` rounds from `old` gives `new` and asks for `load`: the
/// round moves within the season's rounds, and when it changes the match
/// list is emptied and the new round is loaded.
pub open spec fn round_stepped(old: App, delta: int, new: App, load: Option<u32>) -> bool {
    let r = clamped_round(old.round as int, delta);
    if r == old.round {
        new == old && load is None
    } else {
        &&& new.matches@.len() == 0
        &&& new == (App {
            round: r as u32,
            matches: new.matches,
            selected: 0,
            loading: true,
            error: None,
            ..old
        })
        &&& load == Some(r as u32)
    }
}

/// The order keys of a team's players for one statistic.
pub open spec fn player_keys(list: Seq<PlayerEntry>, key: StatKey) -> Seq<i64> {
    list.map_values(|p: PlayerEntry| float_order(p.player_stats.stats.value(key)) as i64)
}

/// The roster that the active players tab lists, if the tab is a players
/// tab and the open match has statistics.
pub open spec fn shown_roster(app: App) -> Option<Seq<PlayerEntry>> {
    match app.match_data {
        Some(md) => match md.stats {
            Some(stats) => match app.tab {
                StatsTab::HomePlayers => Some(stats.home_team_player_stats@),
                StatsTab::AwayPlayers => Some(stats.away_team_player_stats@),
                _ => None,
            },
            None => None,
        },
        None => None,
    }
}

/// `shown` lists `roster` best first by the statistic `key`: a stable sort
/// by descending value, ties kept in roster order.
pub open spec fn ranked_by(roster: Seq<PlayerEntry>, key: StatKey, shown: Seq<&PlayerEntry>) -> bool {
    exists|order: Seq<usize>| {
        &&& is_stable_descending(player_keys(roster, key), order)
        &&& shown.len() == roster.len()
        &&& forall|i: int| 0 <= i < shown.len() ==> *#[trigger] shown[i] == roster[order[i] as int]
    }
}

fn rank_players<'a>(list: &'a Vec<PlayerEntry>, key: StatKey) -> (r: Vec<&'a PlayerEntry>)
    ensures
        ranked_by(list@, key, r@),
{
    let mut keys: Vec<i64> = Vec::new();
    let mut i: usize = 0;
    while i < list.len()
        invariant
            i <= list@.len(),
            keys@ == player_keys(list@.subrange(0, i as int), key),
        decreases list.len() - i,
    {
        let k = float_order_key(list[i].stats().get(key));
        keys.push(k);
        proof {
            assert(player_keys(list@.subrange(0, i + 1), key)
                =~= player_keys(list@.subrange(0, i as int), key).push(k));
        }
        i = i + 1;
    }
    assert(list@.subrange(0, list@.len() as int) =~= list@);
    let order = stable_descending_order(&keys);
    let mut r: Vec<&'a PlayerEntry> = Vec::new();
    let mut j: usize = 0;
    while j < order.len()
        invariant
            keys@ == player_keys(list@, key),
            is_stable_descending(keys@, order@),
            j <= order@.len(),
            r@.len() == j,
            forall|a: int| 0 <= a < j ==> *#[trigger] r@[a] == list@[order@[a] as int],
        decreases order.len() - j,
    {
        r.push(&list[order[j]]);
        j = j + 1;
    }
    r
}

/// The state the interface starts in: the fixture screen, loading, with
/// nothing listed and no match open.
pub open spec fn is_initial(app: App) -> bool {
    &&& app.screen == Screen::Fixture
    &&& app.main_tab == MainTab::Fixture
    &&& app.season is None
    &&& app.round == 0
    &&& app.matches@.len() == 0
    &&& app.selected == 0
    &&& app.loading
    &&& app.ladder@.len() == 0
    &&& app.match_data is None
    &&& app.tab == StatsTab::TeamStats
    &&& app.sort == StatKey::Disposals
    &&& app.player_row == 0
    &&& app.error is None
    &&& !app.should_quit
}

impl Default for App {
    fn default() -> (app: Self)
        ensures
            is_initial(app),
    {
        Self::new()
    }
}

impl App {
    /// The selection points into the list of matches, or is 0 when the list
    /// is empty.
    pub open spec fn selection_ok(self) -> bool {
        self.selected < self.matches.len() || (self.matches.len() == 0 && self.selected == 0)
    }

    pub fn new() -> (app: Self)
        ensures
            is_initial(app),
    {
        App {
            screen: Screen::Fixture,
            main_tab: MainTab::Fixture,
            season: None,
            round: 0,
            matches: Vec::new(),
            selected: 0,
            loading: true,
            ladder: Vec::new(),
            match_data: None,
            tab: StatsTab::TeamStats,
            sort: StatKey::Disposals,
            player_row: 0,
            error: None,
            should_quit: false,
        }
    }

    pub fn apply(&mut self, event: DataEvent)
        ensures
            applied(*old(self), event, *final(self)),
    {
        match event {
            DataEvent::Season(s) => {
                self.round = if s.current_round_number >= MIN_ROUND { s.current_round_number } else { MIN_ROUND };
                self.season = Some(s);
            },
            DataEvent::Round { round, matches } => {
                // Ignore stale responses after the user moved to another round.
                if round == self.round {
                    self.loading = false;
                    self.error = None;
                    if self.selected >= matches.len() {
                        self.selected = if matches.len() == 0 { 0 } else { matches.len() - 1 };
                    }
                    self.matches = matches;
                }
            },
            DataEvent::Ladder(entries) => {
                self.ladder = entries;
            },
            DataEvent::MatchUpdate { provider_id, item, stats } => {
                let current = self.match_data.take();
                match current {
                    Some(md) => {
                        if md.fixture.provider_id == provider_id {
                            self.match_data = Some(MatchData {
                                fixture: md.fixture,
                                item: Some(*item),
                                stats: Some(*stats),
                                last_updated: Some(now()),
                            });
                            self.error = None;
                        } else {
                            self.match_data = Some(md);
                        }
                    },
                    None => {
                        self.match_data = None;
                    },
                }
            },
            DataEvent::Error(e) => {
                self.loading = false;
                self.error = Some(e);
            },
        }
    }

    pub fn selected_match(&self) -> (r: Option<&FixtureMatch>)
        ensures
            r == (if self.selected < self.matches.len() {
                Some(&self.matches@[self.selected as int])
            } else {
                None
            }),
    {
        if self.selected < self.matches.len() {
            Some(&self.matches[self.selected])
        } else {
            None
        }
    }

    pub fn open_match(&mut self) -> (id: Option<String>)
        ensures
            (*final(self), id) == opened(*old(self)),
    {
        if self.selected >= self.matches.len() {
            return None;
        }
        let fixture = self.matches[self.selected].clone();
        let id = fixture.provider_id.clone();
        self.match_data = Some(MatchData { fixture, item: None, stats: None, last_updated: None });
        self.screen = Screen::Match;
        self.tab = StatsTab::TeamStats;
        self.player_row = 0;
        Some(id)
    }

    pub fn close_match(&mut self)
        ensures
            *final(self) == closed(*old(self)),
    {
        self.screen = Screen::Fixture;
        self.match_data = None;
        self.error = None;
    }

    pub fn change_round(&mut self, delta: i64) -> (load: Option<u32>)
        requires
            i64::MIN <= old(self).round + delta <= i64::MAX,
        ensures
            round_stepped(*old(self), delta as int, *final(self), load),
    {
        let target: i64 = self.round as i64 + delta;
        let new: u32 = if target < MIN_ROUND as i64 {
            MIN_ROUND
        } else if target > MAX_ROUND as i64 {
            MAX_ROUND
        } else {
            target as u32
        };
        if new == self.round {
            return None;
        }
        self.round = new;
        self.matches.clear();
        self.selected = 0;
        self.loading = true;
        self.error = None;
        Some(new)
    }

    /// Player entries for the active players tab, sorted by the current sort key.
    pub fn sorted_players(&self) -> (r: Vec<&PlayerEntry>)
        ensures
            match shown_roster(*self) {
                Some(roster) => ranked_by(roster, self.sort, r@),
                None => r@.len() == 0,
            },
    {
        match &self.match_data {
            Some(md) => match &md.stats {
                Some(stats) => match self.tab {
                    StatsTab::HomePlayers => rank_players(&stats.home_team_player_stats, self.sort),
                    StatsTab::AwayPlayers => rank_players(&stats.away_team_player_stats, self.sort),
                    _ => Vec::new(),
                },
                None => Vec::new(),
            },
            None => Vec::new(),
        }
    }

    /// The scoring events of the open match, oldest first; none before the
    /// match's score has arrived.
    pub fn scoring_events(&self) -> (r: &[ScoringEvent])
        ensures
            r@ == worm_events(*self),
    {
        match &self.match_data {
            Some(md) => match &md.item {
                Some(item) => match &item.score {
                    Some(score) => match &score.score_worm {
                        Some(worm) => worm.scoring_events.as_slice(),
                        None => &[],
                    },
                    None => &[],
                },
                None => &[],
            },
            None => &[],
        }
    }
}

/// A key press, as the interface reads it from the terminal.
#[derive(Debug, Clone, Copy, PartialEq, Eq, Structural)]
pub enum KeyCode {
    Char(char),
    Up,
    Down,
    Left,
    Right,
    Enter,
    Esc,
    Tab,
    Backspace,
    Other,
}

/// The statistic that a letter sorts the players tab by.
pub open spec fn sort_key_of(c: char) -> Option<StatKey> {
    if c == 'd' { Some(StatKey::Disposals) }
    else if c == 'g' { Some(StatKey::Goals) }
    else if c == 'k' { Some(StatKey::Kicks) }
    else if c == 'h' { Some(StatKey::Handballs) }
    else if c == 'm' { Some(StatKey::Marks) }
    else if c == 't' { Some(StatKey::Tackles) }
    else if c == 'c' { Some(StatKey::Clearances) }
    else if c == 'f' { Some(StatKey::DreamTeamPoints) }
    else { None }
}

pub fn sort_key(c: char) -> (r: Option<StatKey>)
    ensures
        r == sort_key_of(c),
        c == 'd' ==> r == Some(StatKey::Disposals),
        c == 'g' ==> r == Some(StatKey::Goals),
        c == 'k' ==> r == Some(StatKey::Kicks),
        c == 'h' ==> r == Some(StatKey::Handballs),
        c == 'm' ==> r == Some(StatKey::Marks),
        c == 't' ==> r == Some(StatKey::Tackles),
        c == 'c' ==> r == Some(StatKey::Clearances),
        c == 'f' ==> r == Some(StatKey::DreamTeamPoints),
{
    match c {
        'd' => Some(StatKey::Disposals),
        'g' => Some(StatKey::Goals),
        'k' => Some(StatKey::Kicks),
        'h' => Some(StatKey::Handballs),
        'm' => Some(StatKey::Marks),
        't' => Some(StatKey::Tackles),
        'c' => Some(StatKey::Clearances),
        'f' => Some(StatKey::DreamTeamPoints),
        _ => None,
    }
}

/// The round that a command asks to load, if it is a round load.
pub open spec fn round_load_of(cmd: Option<Cmd>) -> Option<u32> {
    match cmd {
        Some(Cmd::LoadRound(r)) => Some(r),
        _ => None,
    }
}

/// A row one place up, stopping at the top.
pub open spec fn row_up(row: usize) -> usize {
    if row > 0 { (row - 1) as usize } else { 0 }
}

/// A row one place down; the view clamps it to the rows there are.
pub open spec fn row_down(row: usize) -> usize {
    if row < usize::MAX { (row + 1) as usize } else { row }
}

/// How a key press on the fixture screen changes the state, and what it
/// asks of the poller.
pub open spec fn fixture_key(old: App, code: KeyCode, new: App, cmd: Option<Cmd>) -> bool {
    match code {
        KeyCode::Char('q') | KeyCode::Esc => new == (App { should_quit: true, ..old }) && cmd is None,
        KeyCode::Up | KeyCode::Char('k') => new == (App { selected: row_up(old.selected), ..old }) && cmd is None,
        KeyCode::Down | KeyCode::Char('j') => cmd is None && if old.selected + 1 < old.matches.len() {
            new == (App { selected: (old.selected + 1) as usize, ..old })
        } else {
            new == old
        },
        KeyCode::Left | KeyCode::Char('h') => {
            &&& round_stepped(old, -1, new, round_load_of(cmd))
            &&& (cmd is None || cmd matches Some(Cmd::LoadRound(_)))
        },
        KeyCode::Right | KeyCode::Char('l') => {
            &&& round_stepped(old, 1, new, round_load_of(cmd))
            &&& (cmd is None || cmd matches Some(Cmd::LoadRound(_)))
        },
        KeyCode::Char('r') => new == (App { loading: true, ..old }) && cmd == Some(Cmd::LoadRound(old.round)),
        KeyCode::Enter => {
            &&& new == opened(old).0
            &&& cmd == match opened(old).1 {
                Some(id) => Some(Cmd::Watch(id)),
                None => None,
            }
        },
        _ => new == old && cmd is None,
    }
}

/// How a key press on the match screen changes the state, and what it asks
/// of the poller.
pub open spec fn match_key(old: App, code: KeyCode, new: App, cmd: Option<Cmd>) -> bool {
    match code {
        KeyCode::Char('q') => new == (App { should_quit: true, ..old }) && cmd is None,
        KeyCode::Esc | KeyCode::Backspace => new == closed(old) && cmd == Some(Cmd::Unwatch),
        KeyCode::Tab => cmd is None && new == (App {
            tab: following_tab(old.tab),
            player_row: 0,
            ..old
        }),
        KeyCode::Up => cmd is None && new == (App { player_row: row_up(old.player_row), ..old }),
        KeyCode::Down => cmd is None && new == (App { player_row: row_down(old.player_row), ..old }),
        KeyCode::Char('r') => new == old && cmd == match old.match_data {
            Some(md) => Some(Cmd::Watch(md.fixture.provider_id)),
            None => None,
        },
        KeyCode::Char(c) => cmd is None && if (old.tab == StatsTab::HomePlayers || old.tab
            == StatsTab::AwayPlayers) && sort_key_of(c) is Some {
            new == (App { sort: sort_key_of(c).unwrap(), ..old })
        } else {
            new == old
        },
        _ => new == old && cmd is None,
    }
}

/// How a key press changes the state: Ctrl-C quits anywhere; otherwise the
/// screen decides.
pub open spec fn key_handled(old: App, code: KeyCode, control: bool, new: App, cmd: Option<Cmd>) -> bool {
    if control && code == KeyCode::Char('c') {
        new == (App { should_quit: true, ..old }) && cmd is None
    } else {
        match old.screen {
            Screen::Fixture => fixture_key(old, code, new, cmd),
            Screen::Match => match_key(old, code, new, cmd),
        }
    }
}

fn step_round(app: &mut App, delta: i64) -> (cmd: Option<Cmd>)
    requires
        delta == 1 || delta == -1,
    ensures
        round_stepped(*old(app), delta as int, *final(app), round_load_of(cmd)),
        cmd is None || cmd matches Some(Cmd::LoadRound(_)),
{
    match app.change_round(delta) {
        Some(round) => Some(Cmd::LoadRound(round)),
        None => None,
    }
}

/// Applies a key press to the interface state; returns the request for the
/// poller that the key makes, if any.
pub fn handle_key(app: &mut App, code: KeyCode, control: bool) -> (cmd: Option<Cmd>)
    ensures
        key_handled(*old(app), code, control, *final(app), cmd),
{
    if control && code == KeyCode::Char('c') {
        app.should_quit = true;
        return None;
    }
    match app.screen {
        Screen::Fixture => match code {
            KeyCode::Char('q') | KeyCode::Esc => {
                app.should_quit = true;
                None
            },
            KeyCode::Up | KeyCode::Char('k') => {
                app.selected = app.selected.saturating_sub(1);
                None
            },
            KeyCode::Down | KeyCode::Char('j') => {
                if app.matches.len() > 0 && app.selected < app.matches.len() - 1 {
                    app.selected = app.selected + 1;
                }
                None
            },
            KeyCode::Left | KeyCode::Char('h') => step_round(app, -1),
            KeyCode::Right | KeyCode::Char('l') => step_round(app, 1),
            KeyCode::Char('r') => {
                app.loading = true;
                Some(Cmd::LoadRound(app.round))
            },
            KeyCode::Enter => match app.open_match() {
                Some(id) => Some(Cmd::Watch(id)),
                None => None,
            },
            _ => None,
        },
        Screen::Match => match code {
            KeyCode::Char('q') => {
                app.should_quit = true;
                None
            },
            KeyCode::Esc | KeyCode::Backspace => {
                app.close_match();
                Some(Cmd::Unwatch)
            },
            KeyCode::Tab => {
                app.tab = app.tab.next();
                app.player_row = 0;
                None
            },
            KeyCode::Up => {
                app.player_row = app.player_row.saturating_sub(1);
                None
            },
            KeyCode::Down => {
                // Clamped against the roster size when drawn.
                if app.player_row < usize::MAX {
                    app.player_row = app.player_row + 1;
                }
                None
            },
            KeyCode::Char('r') => match &app.match_data {
                Some(md) => Some(Cmd::Watch(md.fixture.provider_id.clone())),
                None => None,
            },
            KeyCode::Char(c) => {
                if app.tab == StatsTab::HomePlayers || app.tab == StatsTab::AwayPlayers {
                    match sort_key(c) {
                        Some(key) => {
                            app.sort = key;
                        },
                        None => {},
                    }
                }
                None
            },
            _ => None,
        },
    }
}

/// Data from the poller never leaves the selection pointing past the list
/// of matches: a fresh round keeps the selection if it still points into
/// the list and otherwise moves it to the last match.
pub proof fn law_events_keep_selection_valid(old: App, event: DataEvent, new: App)
    requires
        old.selection_ok(),
        applied(old, event, new),
    ensures
        new.selection_ok(),
{
}

/// No key press leaves the selection pointing past the list of matches.
pub proof fn law_keys_keep_selection_valid(old: App, code: KeyCode, control: bool, new: App, cmd: Option<Cmd>)
    requires
        old.selection_ok(),
        key_handled(old, code, control, new, cmd),
    ensures
        new.selection_ok(),
{
}

/// Any round that a step lands on is a round of the season, and a step
/// asks for a load exactly when it moves the round.
pub proof fn law_round_steps_stay_in_season(old: App, delta: int, new: App, load: Option<u32>)
    requires
        round_stepped(old, delta, new, load),
        load is Some || (MIN_ROUND <= old.round <= MAX_ROUND),
    ensures
        MIN_ROUND <= new.round <= MAX_ROUND,
        load is Some <==> new.round != old.round,
        load matches Some(r) ==> r == new.round,
{
}

/// A step back undoes a step forward that the season's bounds did not cut
/// short.
pub proof fn law_round_step_undone(a: App, delta: int, b: App, l1: Option<u32>, c: App, l2: Option<u32>)
    requires
        MIN_ROUND <= a.round <= MAX_ROUND,
        MIN_ROUND <= a.round + delta <= MAX_ROUND,
        round_stepped(a, delta, b, l1),
        round_stepped(b, -delta, c, l2),
    ensures
        c.round == a.round,
{
}

/// Opening the selected match and leaving it again brings back the fixture
/// screen with no match open, over the same round, list and selection.
pub proof fn law_close_undoes_open(app: App)
    requires
        opened(app).1 is Some,
    ensures
        opened(app).0.screen == Screen::Match,
        closed(opened(app).0).screen == Screen::Fixture,
        closed(opened(app).0).match_data is None,
        closed(opened(app).0).round == app.round,
        closed(opened(app).0).matches == app.matches,
        closed(opened(app).0).selected == app.selected,
{
}

/// A match update reaches the open match only when it is about that match;
/// after it, the open match holds exactly the score and statistics sent.
pub proof fn law_update_reaches_only_the_open_match(old: App, provider_id: String,
    item: MatchItem, stats: PlayerStatsResponse, new: App)
    requires
        applied(old, DataEvent::MatchUpdate { provider_id, item: Box::new(item), stats: Box::new(stats) }, new),
    ensures
        (old.match_data matches Some(md) && md.fixture.provider_id@ == provider_id@) ==> {
            &&& new.match_data matches Some(nmd)
            &&& nmd.item == Some(item)
            &&& nmd.stats == Some(stats)
            &&& nmd.fixture == old.match_data.unwrap().fixture
        },
        !(old.match_data matches Some(md) && md.fixture.provider_id@ == provider_id@) ==> new == old,
{
}

/// A players tab can be listed in one way only: the ranking is determined
/// by the roster and the statistic.
pub proof fn law_player_ranking_unique(roster: Seq<PlayerEntry>, key: StatKey, s1: Seq<&PlayerEntry>, s2: Seq<&PlayerEntry>)
    requires
        ranked_by(roster, key, s1),
        ranked_by(roster, key, s2),
    ensures
        s1 == s2,
{
    let o1 = choose|order: Seq<usize>| {
        &&& is_stable_descending(player_keys(roster, key), order)
        &&& s1.len() == roster.len()
        &&& forall|i: int| 0 <= i < s1.len() ==> *#[trigger] s1[i] == roster[order[i] as int]
    };
    let o2 = choose|order: Seq<usize>| {
        &&& is_stable_descending(player_keys(roster, key), order)
        &&& s2.len() == roster.len()
        &&& forall|i: int| 0 <= i < s2.len() ==> *#[trigger] s2[i] == roster[order[i] as int]
    };
    law_stable_descending_unique(player_keys(roster, key), o1, o2);
    assert forall|i: int| 0 <= i < s1.len() implies s1[i] == s2[i] by {
        assert(*s1[i] == roster[o1[i] as int]);
        assert(*s2[i] == roster[o2[i] as int]);
    }
    assert(s1 =~= s2);
}

/// The interface opens on the current round of the latest season: the
/// season event sets the round that the poller loads first (the current
/// round, at least 1), so that round's answer is shown rather than dropped
/// as stale.
pub proof fn law_opens_on_current_round(old: App, s: CompSeason, mid: App, matches: Vec<FixtureMatch>, new: App)
    requires
        applied(old, DataEvent::Season(s), mid),
        applied(mid, DataEvent::Round {
            round: if s.current_round_number >= 1 { s.current_round_number } else { 1 },
            matches: matches,
        }, new),
    ensures
        mid.round == (if s.current_round_number >= 1 { s.current_round_number } else { 1 }),
        new.matches == matches,
        !new.loading,
{
}

/// The interface starts with a valid selection.
pub proof fn law_initial_selection_valid(app: App)
    requires
        is_initial(app),
    ensures
        app.selection_ok(),
{
}

/// On a players tab the sort letters pick the statistics they name: 'd'
/// disposals, 'g' goals, 'k' kicks, 'h' handballs, 'm' marks, 't' tackles,
/// 'c' clearances and 'f' fantasy (Dream Team) points; the players are then
/// listed by that statistic and nothing else changes.
pub proof fn law_sort_letters(old: App, c: char, new: App, cmd: Option<Cmd>)
    requires
        old.screen == Screen::Match,
        old.tab == StatsTab::HomePlayers || old.tab == StatsTab::AwayPlayers,
        key_handled(old, KeyCode::Char(c), false, new, cmd),
    ensures
        c == 'd' ==> new == (App { sort: StatKey::Disposals, ..old }) && cmd is None,
        c == 'g' ==> new == (App { sort: StatKey::Goals, ..old }) && cmd is None,
        c == 'k' ==> new == (App { sort: StatKey::Kicks, ..old }) && cmd is None,
        c == 'h' ==> new == (App { sort: StatKey::Handballs, ..old }) && cmd is None,
        c == 'm' ==> new == (App { sort: StatKey::Marks, ..old }) && cmd is None,
        c == 't' ==> new == (App { sort: StatKey::Tackles, ..old }) && cmd is None,
        c == 'c' ==> new == (App { sort: StatKey::Clearances, ..old }) && cmd is None,
        c == 'f' ==> new == (App { sort: StatKey::DreamTeamPoints, ..old }) && cmd is None,
{
}

/// A fresh answer for the round on screen replaces the list of matches and
/// keeps the selection wherever it still points into the new list; only a
/// selection past the end moves, to the last match (or the top of an empty
/// list).
pub proof fn law_round_refresh_keeps_selection(old: App, matches: Vec<FixtureMatch>, new: App)
    requires
        applied(old, DataEvent::Round { round: old.round, matches: matches }, new),
    ensures
        new.matches == matches,
        old.selected < matches.len() ==> new.selected == old.selected,
        old.selected >= matches.len() && matches.len() > 0 ==> new.selected == matches.len() - 1,
        matches.len() == 0 ==> new.selected == 0,
{
}

/// On the fixture screen the left arrow and 'h' go back one round, and the
/// right arrow and 'l' forward one, loading the round they land on; at the
/// first or last round of the season the key does nothing.
pub proof fn law_round_keys(old: App, code: KeyCode, new: App, cmd: Option<Cmd>)
    requires
        old.screen == Screen::Fixture,
        MIN_ROUND <= old.round <= MAX_ROUND,
        key_handled(old, code, false, new, cmd),
    ensures
        (code == KeyCode::Left || code == KeyCode::Char('h')) && old.round > MIN_ROUND ==> {
            &&& new.round == old.round - 1
            &&& cmd == Some(Cmd::LoadRound((old.round - 1) as u32))
        },
        (code == KeyCode::Right || code == KeyCode::Char('l')) && old.round < MAX_ROUND ==> {
            &&& new.round == old.round + 1
            &&& cmd == Some(Cmd::LoadRound((old.round + 1) as u32))
        },
        (code == KeyCode::Left || code == KeyCode::Char('h')) && old.round == MIN_ROUND ==> new == old && cmd is None,
        (code == KeyCode::Right || code == KeyCode::Char('l')) && old.round == MAX_ROUND ==> new == old && cmd is None,
{
}

/// The key table: on the fixture screen the up arrow or 'k' moves the
/// selection one match up and the down arrow or 'j' one down, stopping at
/// the ends; Enter opens the selected match and starts watching it; 'r'
/// reloads the round on screen. On the match screen Esc or Backspace leaves
/// the match and stops watching it (on the fixture screen Esc quits), Tab shows the next tab from the top row,
/// and 'r' refreshes the open match. 'q' and Ctrl-C quit on either screen.
pub proof fn law_key_table(old: App, code: KeyCode, control: bool, new: App, cmd: Option<Cmd>)
    requires
        key_handled(old, code, control, new, cmd),
    ensures
        control && code == KeyCode::Char('c') ==> new.should_quit && cmd is None,
        !control && code == KeyCode::Char('q') ==> new.should_quit && cmd is None,
        !control && old.screen == Screen::Fixture ==> {
            &&& (code == KeyCode::Up || code == KeyCode::Char('k')) ==>
                new.selected == if old.selected > 0 { old.selected - 1 } else { 0 }
            &&& (code == KeyCode::Down || code == KeyCode::Char('j')) ==>
                new.selected == if old.selected + 1 < old.matches.len() { old.selected + 1 } else { old.selected as int }
            &&& (code == KeyCode::Enter && old.selected < old.matches.len()) ==> {
                &&& new.screen == Screen::Match
                &&& new.match_data matches Some(md) && md.fixture == old.matches[old.selected as int]
                &&& cmd == Some(Cmd::Watch(old.matches[old.selected as int].provider_id))
            }
            &&& code == KeyCode::Char('r') ==> cmd == Some(Cmd::LoadRound(old.round)) && new.loading
            &&& code == KeyCode::Esc ==> new.should_quit && cmd is None
        },
        !control && old.screen == Screen::Match ==> {
            &&& (code == KeyCode::Esc || code == KeyCode::Backspace) ==> {
                &&& new.screen == Screen::Fixture
                &&& new.match_data is None
                &&& cmd == Some(Cmd::Unwatch)
            }
            &&& code == KeyCode::Tab ==> new.player_row == 0 && cmd is None && match old.tab {
                StatsTab::TeamStats => new.tab == StatsTab::HomePlayers,
                StatsTab::HomePlayers => new.tab == StatsTab::AwayPlayers,
                StatsTab::AwayPlayers => new.tab == StatsTab::TeamStats,
            }
            &&& code == KeyCode::Char('r') ==> new == old && match old.match_data {
                Some(md) => cmd == Some(Cmd::Watch(md.fixture.provider_id)),
                None => cmd is None,
            }
        },
{
}

} // verus!

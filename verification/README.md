# afl_tui

Live AFL scores and stats in the terminal: fixture browser, live
scoreboard with club emblems, team-stats comparison and sortable player
stats. The match screen has three tabs: team stats, home players and away
players.

There is no feed tab: the program draws neither the score worm nor a
scoring timeline. The library still holds the score worm's geometry
(`feed`: the period bounds and the points of the scoring events, proved to
lie within them) together with the margin and leader texts in `view`, for
a screen that draws them; nothing in `app/` calls them today.

`src/` is the library, verified with Verus: the data model (`models`), the
interface state and key handling (`app`), the poller's refresh decisions
(`poller`), service URLs and token handling (`api`), the score worm
(`feed`), the player ranking (`ordering`), club identities and emblem tiles
(`teams`, `logo`), scoreboard geometry (`layout`), start times (`time`),
text rendering (`text`) and what the screens show (`view`).

`app/` is the program around it: HTTP with reqwest, JSON with serde, the
tokio runtime, terminal input with crossterm and drawing with ratatui and
ratatui-image.

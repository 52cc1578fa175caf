//! The record of what has been played: games by executable name, their
//! sessions, and the decisions the watch loop makes on each poll.

use vstd::prelude::*;
use crate::ignore::{is_ignored, regex_set_is_match, regex_set_valid, texts, IgnoreError};
use crate::text::{format_run_time, run_time_text};

verus! {

/// A stretch of time in which the game had the focus, in milliseconds on the
/// watcher's monotonic clock; `None` where the end (or start) is not known.
#[derive(Clone, Copy, Debug, PartialEq, Eq, Structural)]
pub struct FocusSpan {
    pub start: Option<u64>,
    pub end: Option<u64>,
}

/// One run of a game: one process.
pub struct Session {
    pub pid: u32,
    pub focus_spans: Vec<FocusSpan>,
    /// Seconds the process had been running when last looked at.
    pub run_time: u64,
}

/// A session as a value.
pub struct SessionView {
    pub pid: u32,
    pub focus_spans: Seq<FocusSpan>,
    pub run_time: u64,
}

impl View for Session {
    type V = SessionView;

    open spec fn view(&self) -> SessionView {
        SessionView { pid: self.pid, focus_spans: self.focus_spans@, run_time: self.run_time }
    }
}

/// A game, known by the name of its executable.
pub struct Game {
    pub name: String,
    pub friendly_name: String,
    pub focus_time_total: u64,
    pub focus_time_7_days: u64,
    pub run_time_total: u64,
    pub run_time_7_days: u64,
    pub sessions: Vec<Session>,
}

/// A game as a value.
pub struct GameView {
    pub name: Seq<char>,
    pub friendly_name: Seq<char>,
    pub focus_time_total: u64,
    pub focus_time_7_days: u64,
    pub run_time_total: u64,
    pub run_time_7_days: u64,
    pub sessions: Seq<SessionView>,
}

/// The views of a list of sessions.
pub open spec fn session_views(s: Seq<Session>) -> Seq<SessionView> {
    s.map_values(|x: Session| x@)
}

impl View for Game {
    type V = GameView;

    open spec fn view(&self) -> GameView {
        GameView {
            name: self.name@,
            friendly_name: self.friendly_name@,
            focus_time_total: self.focus_time_total,
            focus_time_7_days: self.focus_time_7_days,
            run_time_total: self.run_time_total,
            run_time_7_days: self.run_time_7_days,
            sessions: session_views(self.sessions@),
        }
    }
}

/// A game seen for the first time: no time counted, no session yet.
pub open spec fn new_game(name: Seq<char>, friendly_name: Seq<char>) -> GameView {
    GameView {
        name,
        friendly_name,
        focus_time_total: 0,
        focus_time_7_days: 0,
        run_time_total: 0,
        run_time_7_days: 0,
        sessions: Seq::empty(),
    }
}

impl Game {
    /// A game with the given names, no time counted and no session.
    pub fn new(name: String, friendly_name: String) -> (g: Game)
        ensures
            g@ == new_game(name@, friendly_name@),
    {
        let g = Game {
            name: name,
            friendly_name: friendly_name,
            focus_time_total: 0,
            focus_time_7_days: 0,
            run_time_total: 0,
            run_time_7_days: 0,
            sessions: Vec::new(),
        };
        assert(session_views(g.sessions@) =~= Seq::<SessionView>::empty());
        g
    }
}

/// What the watch loop reads of the process that holds the foreground.
pub struct ProcessSnapshot {
    pub pid: u32,
    /// The name of its executable, such as `game.exe`.
    pub name: String,
    /// Seconds since it started.
    pub run_time: u64,
}

/// A rectangle on the screen, in pixels.
#[derive(Clone, Copy, Debug, PartialEq, Eq, Structural)]
pub struct ScreenRect {
    pub left: i32,
    pub top: i32,
    pub right: i32,
    pub bottom: i32,
}

/// Whether `window` covers all of `monitor`.
pub open spec fn covers(window: ScreenRect, monitor: ScreenRect) -> bool {
    &&& window.left <= monitor.left
    &&& window.top <= monitor.top
    &&& window.right >= monitor.right
    &&& window.bottom >= monitor.bottom
}

/// The heuristic by which the foreground window is taken for a game: Windows
/// holds notifications back, and the window fills its whole monitor.
pub fn looks_like_game(notifications_accepted: bool, window: ScreenRect, monitor: ScreenRect) -> (b: bool)
    ensures
        b == (!notifications_accepted && covers(window, monitor)),
        b == (!notifications_accepted
            && window.left <= monitor.left
            && window.top <= monitor.top
            && window.right >= monitor.right
            && window.bottom >= monitor.bottom),
{
    !notifications_accepted && window.left <= monitor.left && window.top <= monitor.top
        && window.right >= monitor.right && window.bottom >= monitor.bottom
}

/// Whether some game of the list has this name.
pub open spec fn has_game(games: Seq<GameView>, name: Seq<char>) -> bool {
    exists|i: int| 0 <= i < games.len() && games[i].name == name
}

/// The position of the game with this name (meaningful where `has_game`).
pub open spec fn game_index(games: Seq<GameView>, name: Seq<char>) -> int {
    choose|i: int| 0 <= i < games.len() && games[i].name == name
}

/// No two games of the list have the same name.
pub open spec fn names_unique(games: Seq<GameView>) -> bool {
    forall|i: int, j: int| 0 <= i < games.len() && 0 <= j < games.len() && i != j
        ==> games[i].name != games[j].name
}

/// The game that a poll of a process named `name` works on: the known one,
/// or a new one with the friendly name given.
pub open spec fn game_for(games: Seq<GameView>, name: Seq<char>, friendly_name: Seq<char>) -> GameView {
    if has_game(games, name) {
        games[game_index(games, name)]
    } else {
        new_game(name, friendly_name)
    }
}

/// The list with `g` in the place of the game named `name`, or added at the end.
pub open spec fn put_game(games: Seq<GameView>, name: Seq<char>, g: GameView) -> Seq<GameView> {
    if has_game(games, name) {
        games.update(game_index(games, name), g)
    } else {
        games.push(g)
    }
}

/// A poll of process `pid` starts a session of `g` when `g` has none yet or
/// its last one belongs to another process.
pub open spec fn starts_session(g: GameView, pid: u32) -> bool {
    g.sessions.len() == 0 || g.sessions.last().pid != pid
}

/// The session that a poll at `now` opens for process `pid`.
pub open spec fn fresh_session(pid: u32, now: u64) -> SessionView {
    SessionView {
        pid,
        focus_spans: seq![FocusSpan { start: Some(now), end: None }],
        run_time: 0,
    }
}

/// `g` after a poll of process `pid` at `now`, before its run time is read.
pub open spec fn open_session(g: GameView, pid: u32, now: u64) -> GameView {
    if starts_session(g, pid) {
        GameView { sessions: g.sessions.push(fresh_session(pid, now)), ..g }
    } else {
        g
    }
}

/// `g` with `run_time` as the run time of its last session.
pub open spec fn with_run_time(g: GameView, run_time: u64) -> GameView {
    let last = g.sessions.last();
    GameView {
        sessions: g.sessions.update(
            g.sessions.len() - 1,
            SessionView { run_time, ..last },
        ),
        ..g
    }
}

/// Milliseconds from `then` to `now`; none when the clock reads earlier.
pub open spec fn elapsed(then: u64, now: u64) -> int {
    if now >= then { now - then } else { 0 }
}

/// Whether `now` is less than `frequency_secs` seconds after the overlay
/// was last shown.
pub open spec fn in_quiet_period(last_shown: Option<u64>, now: u64, frequency_secs: u64) -> bool {
    match last_shown {
        Some(t) => elapsed(t, now) < frequency_secs * 1000,
        None => false,
    }
}

/// When the overlay counts as last shown after a poll: a new session counts
/// as shown at `now`, so that the overlay waits a whole period.
pub open spec fn shown_after_poll(g: GameView, last_shown: Option<u64>, pid: u32, now: u64) -> Option<u64> {
    if starts_session(g, pid) { Some(now) } else { last_shown }
}

/// Whether a poll of process `p` on game `g` ends in a notification.
pub open spec fn poll_notifies(
    g: GameView,
    last_shown: Option<u64>,
    p: ProcessSnapshot,
    now: u64,
    frequency_secs: u64,
) -> bool {
    !in_quiet_period(shown_after_poll(g, last_shown, p.pid, now), now, frequency_secs)
}

/// Game `g` after a poll of process `p`: a session opened if needed, and the
/// run time of the last session read when the poll notifies.
pub open spec fn polled_game(
    g: GameView,
    last_shown: Option<u64>,
    p: ProcessSnapshot,
    now: u64,
    frequency_secs: u64,
) -> GameView {
    let g1 = open_session(g, p.pid, now);
    if poll_notifies(g, last_shown, p, now, frequency_secs) {
        with_run_time(g1, p.run_time)
    } else {
        g1
    }
}

/// Whether a process is to be tracked: one was found, it is not the watcher
/// itself, and its name is not on the ignore list.
pub open spec fn trackable(process: Option<ProcessSnapshot>, own_pid: u32, ignore: Seq<String>) -> bool {
    match process {
        Some(p) => p.pid != own_pid && !regex_set_is_match(texts(ignore), p.name@),
        None => false,
    }
}

/// Whether deciding on this process has to check the ignore list.
pub open spec fn needs_ignore_check(process: Option<ProcessSnapshot>, own_pid: u32) -> bool {
    match process {
        Some(p) => p.pid != own_pid,
        None => false,
    }
}

/// Decides whether the foreground process is tracked. Without a process, or
/// for the watcher's own process, the answer is no and the ignore list is not
/// looked at; otherwise it is no exactly when its name matches the list, and
/// an invalid pattern is an error.
pub fn should_track(process: &Option<ProcessSnapshot>, own_pid: u32, ignore: &Vec<String>) -> (r: Result<bool, IgnoreError>)
    ensures
        !needs_ignore_check(*process, own_pid) ==> r == Ok::<bool, IgnoreError>(false),
        needs_ignore_check(*process, own_pid) ==> (r is Err <==> !regex_set_valid(texts(ignore@))),
        needs_ignore_check(*process, own_pid) && ignore@.len() == 0 ==> r == Ok::<bool, IgnoreError>(true),
        r matches Ok(b) ==> b == trackable(*process, own_pid, ignore@),
        process is None ==> r == Ok::<bool, IgnoreError>(false),
        (*process matches Some(p) && p.pid == own_pid) ==> r == Ok::<bool, IgnoreError>(false),
        (*process matches Some(p) && p.pid != own_pid && ignore@.len() == 0) ==> r == Ok::<bool, IgnoreError>(true),
        (*process matches Some(p) && p.pid != own_pid) ==> (r is Err <==> !regex_set_valid(texts(ignore@))),
        r matches Ok(b) ==> (b <==> (*process matches Some(p) && p.pid != own_pid
            && !regex_set_is_match(texts(ignore@), p.name@))),
{
    match process {
        None => Ok(false),
        Some(p) => {
            if p.pid == own_pid {
                Ok(false)
            } else {
                match is_ignored(ignore, &p.name) {
                    Ok(ignored) => Ok(track_decision(process, own_pid, ignored)),
                    Err(e) => Err(e),
                }
            }
        }
    }
}

/// The decision once the ignore list has answered `ignored` for the process's
/// name: track a process that was found, is not the watcher itself, and is
/// not ignored.
pub fn track_decision(process: &Option<ProcessSnapshot>, own_pid: u32, ignored: bool) -> (b: bool)
    ensures
        b == (needs_ignore_check(*process, own_pid) && !ignored),
        b <==> (*process matches Some(p) && p.pid != own_pid && !ignored),
{
    match process {
        None => false,
        Some(p) => p.pid != own_pid && !ignored,
    }
}

/// Whether `now` is less than `frequency_secs` seconds after `last_shown`.
pub fn quiet_period(last_shown: Option<u64>, now: u64, frequency_secs: u64) -> (b: bool)
    ensures
        b == in_quiet_period(last_shown, now, frequency_secs),
        last_shown is None ==> !b,
        last_shown matches Some(t) ==> (b <==> (if now >= t { now - t } else { 0 }) < frequency_secs * 1000),
        (last_shown matches Some(t) && t <= now && now - t >= frequency_secs * 1000) ==> !b,
{
    match last_shown {
        Some(t) => {
            let e: u64 = if now >= t { now - t } else { 0 };
            (e as u128) < (frequency_secs as u128) * 1000
        }
        None => false,
    }
}

/// Records what a successful send means: the overlay was shown at `now`.
/// After a failed send nothing changes.
pub fn after_send(last_shown: &mut Option<u64>, delivered: bool, now: u64)
    ensures
        *final(last_shown) == (if delivered { Some(now) } else { *old(last_shown) }),
{
    if delivered {
        *last_shown = Some(now);
    }
}

/// One poll of process `p` on game `game`; see `Watcher::record`.
fn poll_game(game: &mut Game, last_shown: &mut Option<u64>, p: &ProcessSnapshot, now: u64, frequency_secs: u64) -> (msg: Option<String>)
    ensures
        final(game)@ == polled_game(old(game)@, *old(last_shown), *p, now, frequency_secs),
        *final(last_shown) == shown_after_poll(old(game)@, *old(last_shown), p.pid, now),
        msg is Some <==> poll_notifies(old(game)@, *old(last_shown), *p, now, frequency_secs),
        msg matches Some(m) ==> m@ == run_time_text(p.run_time as nat),
        msg is Some ==> final(game).sessions@.len() > 0
            && final(game).sessions@.last().run_time == p.run_time,
{
    let ghost g0 = game@;
    let n = game.sessions.len();
    if n == 0 || game.sessions[n - 1].pid != p.pid {
        let mut spans: Vec<FocusSpan> = Vec::new();
        spans.push(FocusSpan { start: Some(now), end: None });
        let ghost before = game.sessions@;
        game.sessions.push(Session { pid: p.pid, focus_spans: spans, run_time: 0 });
        assert(session_views(game.sessions@) =~= session_views(before).push(fresh_session(p.pid, now)));
        *last_shown = Some(now);
    }
    assert(game@ == open_session(g0, p.pid, now));
    if quiet_period(*last_shown, now, frequency_secs) {
        return None;
    }
    let m = game.sessions.len();
    let ghost before = game.sessions@;
    game.sessions[m - 1].run_time = p.run_time;
    assert(session_views(game.sessions@) =~= session_views(before).update(m - 1, SessionView { run_time: p.run_time, ..session_views(before).last() }));
    Some(format_run_time(p.run_time))
}

/// The views of a list of games.
pub open spec fn game_views(v: Seq<Game>) -> Seq<GameView> {
    v.map_values(|g: Game| g@)
}

/// The position of the game named `name` in `games`.
fn find_game(games: &Vec<Game>, name: &String) -> (r: Option<usize>)
    requires
        names_unique(game_views(games@)),
    ensures
        r is None <==> !has_game(game_views(games@), name@),
        r matches Some(i) ==> i == game_index(game_views(games@), name@) && i < games@.len(),
{
    let ghost gs = game_views(games@);
    let mut i: usize = 0;
    while i < games.len()
        invariant
            i <= games@.len(),
            gs == game_views(games@),
            names_unique(gs),
            forall|k: int| 0 <= k < i ==> gs[k].name != name@,
        decreases games@.len() - i,
    {
        assert(gs[i as int] == games@[i as int]@);
        if games[i].name == *name {
            assert(has_game(gs, name@));
            let ghost j = game_index(gs, name@);
            assert(gs[j].name == name@);
            assert(j == i as int);
            return Some(i);
        }
        i = i + 1;
    }
    None
}

/// The games seen so far, each under the name of its executable; no two
/// share a name.
pub struct Watcher {
    games: Vec<Game>,
}

impl View for Watcher {
    type V = Seq<GameView>;

    closed spec fn view(&self) -> Seq<GameView> {
        game_views(self.games@)
    }
}

impl Watcher {
    /// The watcher's invariant: no two games share a name.
    #[verifier::type_invariant]
    closed spec fn names_are_unique(&self) -> bool {
        names_unique(game_views(self.games@))
    }

    /// A watcher that has seen no game.
    pub fn new() -> (w: Watcher)
        ensures
            w@ == Seq::<GameView>::empty(),
            names_unique(w@),
    {
        let w = Watcher { games: Vec::new() };
        assert(w@ =~= Seq::<GameView>::empty());
        w
    }

    /// The games, in the order in which they were first seen.
    pub fn games(&self) -> (g: &Vec<Game>)
        ensures
            game_views(g@) == self@,
            names_unique(self@),
    {
        proof { use_type_invariant(self); }
        &self.games
    }

    /// Whether a game of this name has been seen.
    pub fn contains_game(&self, name: &String) -> (b: bool)
        ensures
            b == has_game(self@, name@),
    {
        proof { use_type_invariant(self); }
        find_game(&self.games, name).is_some()
    }

    /// One poll of a tracked process `p` at `now` (milliseconds): the game of
    /// its name is looked up, or added with `friendly_name` (which is used
    /// for nothing else); a session is opened when the game has none or the
    /// last belongs to another process, and the overlay then counts as shown
    /// now; unless the overlay was shown less than `frequency_secs` seconds
    /// ago, the last session's run time is updated and the overlay text is
    /// returned. Names stay unique.
    pub fn record(
        &mut self,
        last_shown: &mut Option<u64>,
        p: &ProcessSnapshot,
        friendly_name: String,
        now: u64,
        frequency_secs: u64,
    ) -> (msg: Option<String>)
        ensures
            names_unique(final(self)@),
            final(self)@ == put_game(
                old(self)@,
                p.name@,
                polled_game(game_for(old(self)@, p.name@, friendly_name@), *old(last_shown), *p, now, frequency_secs),
            ),
            *final(last_shown) == shown_after_poll(game_for(old(self)@, p.name@, friendly_name@), *old(last_shown), p.pid, now),
            msg is Some <==> poll_notifies(game_for(old(self)@, p.name@, friendly_name@), *old(last_shown), *p, now, frequency_secs),
            msg matches Some(m) ==> m@ == run_time_text(p.run_time as nat),
            has_game(final(self)@, p.name@),
            final(self)@[game_index(final(self)@, p.name@)].sessions.len() > 0,
            final(self)@[game_index(final(self)@, p.name@)].sessions.last().pid == p.pid,
            msg is Some ==> final(self)@[game_index(final(self)@, p.name@)].sessions.last().run_time == p.run_time,
    {
        proof { use_type_invariant(&*self); }
        let ghost gs = self@;
        let ghost g0 = game_for(gs, p.name@, friendly_name@);
        let mut games: Vec<Game> = Vec::new();
        std::mem::swap(&mut games, &mut self.games);
        assert(game_views(games@) == gs);
        let idx = match find_game(&games, &p.name) {
            Some(i) => i,
            None => {
                let ghost fname = friendly_name@;
                games.push(Game::new(p.name.clone(), friendly_name));
                assert(game_views(games@) =~= gs.push(new_game(p.name@, fname)));
                games.len() - 1
            },
        };
        assert(game_views(games@)[idx as int] == g0);
        assert(games@[idx as int]@ == g0);
        let msg = poll_game(&mut games[idx], last_shown, p, now, frequency_secs);
        let ghost g1 = polled_game(g0, *old(last_shown), *p, now, frequency_secs);
        proof {
            poll_then_lookup(gs, *p, friendly_name@, *old(last_shown), now, frequency_secs);
        }
        assert(g1.name == g0.name);
        assert(game_views(games@) =~= put_game(gs, p.name@, g1));
        self.games = games;
        msg
    }
}

/// A poll leaves the polled game with a session of the polled process last,
/// keeps every earlier session as it was, and adds at most one session; the
/// name, friendly name and counters are untouched.
pub proof fn poll_keeps_history(g: GameView, last_shown: Option<u64>, p: ProcessSnapshot, now: u64, frequency_secs: u64)
    ensures
        ({
            let g2 = polled_game(g, last_shown, p, now, frequency_secs);
            &&& g2.name == g.name
            &&& g2.friendly_name == g.friendly_name
            &&& g2.focus_time_total == g.focus_time_total
            &&& g2.run_time_total == g.run_time_total
            &&& g2.sessions.len() == g.sessions.len() + (if starts_session(g, p.pid) { 1int } else { 0int })
            &&& g2.sessions.len() > 0
            &&& g2.sessions.last().pid == p.pid
            &&& forall|i: int| 0 <= i < g2.sessions.len() - 1 ==> g2.sessions[i] == g.sessions[i]
            &&& starts_session(g, p.pid) ==> g2.sessions.last().focus_spans == seq![FocusSpan { start: Some(now), end: None }]
        }),
{
}

/// The overlay is shown at most once per notification period: a poll that
/// notifies, with a period of at least one second, was not preceded by a
/// showing within the period, and does not start a session (a new session
/// counts as a showing, so the overlay waits a whole period before its first
/// display).
pub proof fn notifications_respect_period(g: GameView, last_shown: Option<u64>, p: ProcessSnapshot, now: u64, frequency_secs: u64)
    requires
        frequency_secs > 0,
        poll_notifies(g, last_shown, p, now, frequency_secs),
    ensures
        !starts_session(g, p.pid),
        last_shown matches Some(t) ==> elapsed(t, now) >= frequency_secs * 1000,
{
}

/// What a poll records can be found again: afterwards the list holds a game
/// of the process's name, with the polled process as its last session; its
/// friendly name is the earlier one if the game was known, else the one
/// given; the list grows only by a new game, names stay unique, and every
/// other game is left as it was.
pub proof fn poll_then_lookup(
    games: Seq<GameView>,
    p: ProcessSnapshot,
    friendly_name: Seq<char>,
    last_shown: Option<u64>,
    now: u64,
    frequency_secs: u64,
)
    requires
        names_unique(games),
    ensures
        ({
            let g0 = game_for(games, p.name@, friendly_name);
            let after = put_game(games, p.name@, polled_game(g0, last_shown, p, now, frequency_secs));
            let g2 = after[game_index(after, p.name@)];
            &&& names_unique(after)
            &&& has_game(after, p.name@)
            &&& g2 == polled_game(g0, last_shown, p, now, frequency_secs)
            &&& g2.sessions.last().pid == p.pid
            &&& g2.friendly_name == (if has_game(games, p.name@) {
                games[game_index(games, p.name@)].friendly_name
            } else {
                friendly_name
            })
            &&& after.len() == games.len() + (if has_game(games, p.name@) { 0int } else { 1int })
            &&& forall|i: int| 0 <= i < games.len() && games[i].name != p.name@ ==> after[i] == games[i]
        }),
{
    let g0 = game_for(games, p.name@, friendly_name);
    let g1 = polled_game(g0, last_shown, p, now, frequency_secs);
    let after = put_game(games, p.name@, g1);
    poll_keeps_history(g0, last_shown, p, now, frequency_secs);
    let k = if has_game(games, p.name@) { game_index(games, p.name@) } else { games.len() as int };
    assert(after[k] == g1);
    assert(has_game(after, p.name@));
    assert(names_unique(after));
    assert(game_index(after, p.name@) == k);
}

/// After a delivered notification at `shown`, no poll within the next
/// notification period notifies, whether or not it starts a session.
pub proof fn shown_overlay_silences_period(
    g: GameView,
    shown: u64,
    p: ProcessSnapshot,
    later: u64,
    frequency_secs: u64,
)
    requires
        shown <= later,
        later < shown + frequency_secs * 1000,
    ensures
        !poll_notifies(g, Some(shown), p, later, frequency_secs),
{
}

/// A known game's friendly name is never replaced: polling it gives the same
/// list whatever friendly name is offered.
pub proof fn friendly_name_only_for_new_games(
    games: Seq<GameView>,
    p: ProcessSnapshot,
    f1: Seq<char>,
    f2: Seq<char>,
    last_shown: Option<u64>,
    now: u64,
    frequency_secs: u64,
)
    requires
        has_game(games, p.name@),
    ensures
        put_game(games, p.name@, polled_game(game_for(games, p.name@, f1), last_shown, p, now, frequency_secs))
            == put_game(games, p.name@, polled_game(game_for(games, p.name@, f2), last_shown, p, now, frequency_secs)),
        shown_after_poll(game_for(games, p.name@, f1), last_shown, p.pid, now)
            == shown_after_poll(game_for(games, p.name@, f2), last_shown, p.pid, now),
{
}

/// Which processes are tracked, in plain terms: a process that was found,
/// whose pid is not the watcher's own (above or below it), and whose name
/// matches no pattern of the ignore list; with an empty list every such
/// process is tracked.
pub proof fn tracking_rule(process: Option<ProcessSnapshot>, own_pid: u32, ignore: Seq<String>)
    ensures
        trackable(process, own_pid, ignore) <==> (process matches Some(p) && p.pid != own_pid
            && !regex_set_is_match(texts(ignore), p.name@)),
        needs_ignore_check(process, own_pid) <==> (process matches Some(p) && p.pid != own_pid),
        (process matches Some(p) && (p.pid < own_pid || p.pid > own_pid)) ==> needs_ignore_check(process, own_pid),
{
}

/// The foreground window is taken for a game only when it reaches every edge
/// of its monitor: falling short on any one edge is enough to rule it out.
pub proof fn full_screen_rule(window: ScreenRect, monitor: ScreenRect)
    ensures
        covers(window, monitor) <==> (window.left <= monitor.left && window.top <= monitor.top
            && window.right >= monitor.right && window.bottom >= monitor.bottom),
        window.left > monitor.left ==> !covers(window, monitor),
        window.top > monitor.top ==> !covers(window, monitor),
        window.right < monitor.right ==> !covers(window, monitor),
        window.bottom < monitor.bottom ==> !covers(window, monitor),
{
}

/// The overlay is held back exactly while less than the period has passed
/// since it was last shown; once the whole period has passed (however long
/// ago), it no longer is.
pub proof fn quiet_period_rule(last_shown: Option<u64>, now: u64, frequency_secs: u64)
    ensures
        last_shown is None ==> !in_quiet_period(last_shown, now, frequency_secs),
        forall|t: u64| last_shown == Some(t) && t <= now
            ==> (#[trigger] in_quiet_period(Some(t), now, frequency_secs) <==> now - t < frequency_secs * 1000),
        last_shown matches Some(t) && t <= now && now - t >= frequency_secs * 1000
            ==> !in_quiet_period(last_shown, now, frequency_secs),
{
}

/// A poll of the process that runs the game's open session notifies as soon
/// as the period has passed since the overlay was last shown (or when it
/// never was): the overlay is not held back beyond the period.
pub proof fn open_session_notifies_after_period(
    g: GameView,
    last_shown: Option<u64>,
    p: ProcessSnapshot,
    now: u64,
    frequency_secs: u64,
)
    requires
        g.sessions.len() > 0,
        g.sessions.last().pid == p.pid,
        last_shown matches Some(t) ==> t <= now && now - t >= frequency_secs * 1000,
    ensures
        poll_notifies(g, last_shown, p, now, frequency_secs),
        shown_after_poll(g, last_shown, p.pid, now) == last_shown,
{
}

/// A notifying poll stores the process's run time as read, not added to what
/// was stored: the last session then has exactly `p.run_time`, the earlier
/// sessions are unchanged, and a poll that does not notify leaves the run
/// time as it was (zero for a session it opens).
pub proof fn poll_stores_run_time(g: GameView, last_shown: Option<u64>, p: ProcessSnapshot, now: u64, frequency_secs: u64)
    ensures
        ({
            let g2 = polled_game(g, last_shown, p, now, frequency_secs);
            let opened = g.sessions.len() == 0 || g.sessions.last().pid != p.pid;
            &&& g2.sessions.len() == (if opened { g.sessions.len() + 1 } else { g.sessions.len() + 0 })
            &&& poll_notifies(g, last_shown, p, now, frequency_secs) ==> g2.sessions.last().run_time == p.run_time
            &&& !poll_notifies(g, last_shown, p, now, frequency_secs) ==> g2.sessions.last().run_time
                == (if opened { 0 } else { g.sessions.last().run_time })
            &&& g2.sessions.last().pid == p.pid
            &&& !opened ==> g2.sessions.last().focus_spans == g.sessions.last().focus_spans
            &&& forall|i: int| 0 <= i < g.sessions.len() && i != g.sessions.len() - 1 ==> g2.sessions[i] == g.sessions[i]
            &&& opened && g.sessions.len() > 0 ==> g2.sessions[g.sessions.len() - 1] == g.sessions.last()
        }),
{
}

} // verus!

use vstd::prelude::*;

use crate::obstacle::{gap_size_for, Obstacle, GAP_CENTER_MAX, GAP_CENTER_MIN};
use crate::player::{Player, CELL, FLAP_VELOCITY, GRAVITY, TERMINAL_VELOCITY};
use crate::random::random_range;

verus! {

/// Screen width in cells; a new wall stands this far ahead of the player.
pub const SCREEN_WIDTH: i64 = 80;

/// Screen height in cells; a player below it is out of the screen.
pub const SCREEN_HEIGHT: i64 = 50;

/// Time between two physics steps, in microseconds.
pub const FRAME_DURATION: u64 = 75_000;

/// Where a session puts the player: column.
pub const START_X: i64 = 5;

/// Where a session puts the player: height in units.
pub const START_Y: i64 = 250;

/// The player's column may not pass this, so that walls ahead stay within `i64`.
pub const MAX_X: i64 = 0x7fff_ffff_ffff_ff00;

#[derive(Clone, Copy, Debug, PartialEq, Eq, Structural)]
pub enum GameMode {
    Menu,
    Playing,
    End,
}

/// The keys the game reacts to; any other key is `Other`.
#[derive(Clone, Copy, Debug, PartialEq, Eq, Structural)]
pub enum Key {
    Space,
    P,
    Q,
    Other,
}

/// What the run loop is asked to do after a tick.
#[derive(Clone, Copy, Debug, PartialEq, Eq, Structural)]
pub enum Signal {
    Continue,
    Quit,
}

/// One game session: the player, the wall ahead, the score and the mode.
#[derive(Clone, Copy, Debug, PartialEq, Eq, Structural)]
pub struct State {
    pub player: Player,
    pub frame_time: u64,
    pub obstacle: Obstacle,
    pub mode: GameMode,
    pub score: u64,
}

/// Whether a height in units lies below the screen, counted in whole cells.
pub open spec fn below_screen(y: int) -> bool {
    y >= (SCREEN_HEIGHT + 1) * CELL
}

/// The session that play starts from, with the first wall's gap centered on `gap_y`.
pub open spec fn start_state(gap_y: i32) -> State {
    State {
        player: Player { x: START_X, y: START_Y, velocity: 0 },
        frame_time: 0,
        obstacle: Obstacle { x: SCREEN_WIDTH, gap_y, size: gap_size_for(0) as i32 },
        mode: GameMode::Playing,
        score: 0,
    }
}

/// A session in the menu, before any play.
pub open spec fn menu_state(gap_y: i32) -> State {
    State { mode: GameMode::Menu, ..start_state(gap_y) }
}

/// The player after the part of a tick that moves it.
pub open spec fn moved_player(s: State, key: Option<Key>, elapsed: u32) -> Player {
    let stepped = if s.frame_time + elapsed > FRAME_DURATION {
        s.player.stepped()
    } else {
        s.player
    };
    if key == Some(Key::Space) {
        stepped.flapped()
    } else {
        stepped
    }
}

/// A tick in play: physics, flap, passing the wall, then the end check.
/// `gap_y` centers the gap of the wall that replaces a passed one.
pub open spec fn played(s: State, key: Option<Key>, elapsed: u32, gap_y: i32) -> State {
    let acc = s.frame_time + elapsed;
    let p = moved_player(s, key, elapsed);
    let passed = p.x > s.obstacle.x;
    let score = if passed {
        s.score + 1
    } else {
        s.score as int
    };
    let o = if passed {
        Obstacle { x: (p.x + SCREEN_WIDTH) as i64, gap_y, size: gap_size_for(score) as i32 }
    } else {
        s.obstacle
    };
    let ended = below_screen(p.y as int) || o.hits(p);
    State {
        player: p,
        frame_time: if acc > FRAME_DURATION {
            0
        } else {
            acc as u64
        },
        obstacle: o,
        mode: if ended {
            GameMode::End
        } else {
            GameMode::Playing
        },
        score: score as u64,
    }
}

/// A tick in the menu or after the end: `P` starts a session, anything else
/// changes nothing.
pub open spec fn waited(s: State, key: Option<Key>, gap_y: i32) -> State {
    if key == Some(Key::P) {
        start_state(gap_y)
    } else {
        s
    }
}

/// What a tick does to the session, whatever its mode.
pub open spec fn ticked(s: State, key: Option<Key>, elapsed: u32, gap_y: i32) -> State {
    match s.mode {
        GameMode::Playing => played(s, key, elapsed, gap_y),
        _ => waited(s, key, gap_y),
    }
}

/// What a tick asks of the run loop: to stop on `Q` in the menu or after the end.
pub open spec fn signal_of(s: State, key: Option<Key>) -> Signal {
    if s.mode != GameMode::Playing && key == Some(Key::Q) {
        Signal::Quit
    } else {
        Signal::Continue
    }
}

impl State {
    /// The bounds that keep every tick within machine integers.
    pub open spec fn wf(self) -> bool {
        &&& self.frame_time <= FRAME_DURATION
        &&& FLAP_VELOCITY <= self.player.velocity <= TERMINAL_VELOCITY + GRAVITY
        &&& self.score <= self.obstacle.x
        &&& 0 <= self.player.y
        &&& self.mode == GameMode::Playing ==> !below_screen(self.player.y as int)
    }

    /// A session in the menu whose first wall's gap is centered on `gap_y`.
    pub fn with_gap(gap_y: i32) -> (s: State)
        ensures
            s == menu_state(gap_y),
            s.wf(),
    {
        State {
            player: Player::new(START_X, START_Y),
            frame_time: 0,
            obstacle: Obstacle::with_gap(SCREEN_WIDTH, 0, gap_y),
            mode: GameMode::Menu,
            score: 0,
        }
    }

    /// A session in the menu, its first wall's gap centered at random.
    pub fn new() -> (s: State)
        ensures
            s.wf(),
            s.mode == GameMode::Menu,
            GAP_CENTER_MIN <= s.obstacle.gap_y < GAP_CENTER_MAX,
            s == menu_state(s.obstacle.gap_y),
    {
        let o = Obstacle::new(SCREEN_WIDTH, 0);
        State::with_gap(o.gap_y)
    }

    /// Starts play afresh: the player back at the start, score 0, and a new
    /// first wall whose gap is centered on `gap_y`.
    pub fn restart(&mut self, gap_y: i32)
        ensures
            *final(self) == start_state(gap_y),
            final(self).wf(),
    {
        self.player = Player::new(START_X, START_Y);
        self.frame_time = 0;
        self.obstacle = Obstacle::with_gap(SCREEN_WIDTH, 0, gap_y);
        self.mode = GameMode::Playing;
        self.score = 0;
    }

    /// A tick in play. Time accumulates until more than `FRAME_DURATION` has
    /// passed, which runs one physics step and starts counting again; `Space`
    /// flaps; a passed wall scores a point and is replaced by one a screen
    /// ahead, its gap centered on `gap_y`; leaving the screen downward or
    /// striking the wall ends the session.
    pub fn play(&mut self, key: Option<Key>, elapsed: u32, gap_y: i32)
        requires
            old(self).wf(),
            old(self).mode == GameMode::Playing,
            old(self).player.x < MAX_X,
        ensures
            *final(self) == played(*old(self), key, elapsed, gap_y),
            final(self).wf(),
    {
        self.frame_time = self.frame_time + elapsed as u64;
        if self.frame_time > FRAME_DURATION {
            self.frame_time = 0;
            self.player.gravity_and_move();
        }
        if key == Some(Key::Space) {
            self.player.flap();
        }
        if self.player.x > self.obstacle.x {
            self.score = self.score + 1;
            self.obstacle = Obstacle::with_gap(self.player.x + SCREEN_WIDTH, self.score, gap_y);
        }
        if self.player.y >= (SCREEN_HEIGHT + 1) * CELL || self.obstacle.hit_obstacle(&self.player) {
            self.mode = GameMode::End;
        }
    }

    /// A tick in the menu or after the end: `P` starts a session whose first
    /// wall's gap is centered on `gap_y`, `Q` asks to quit, any other key or
    /// none changes nothing.
    fn wait_for_key(&mut self, key: Option<Key>, gap_y: i32) -> (r: Signal)
        ensures
            *final(self) == waited(*old(self), key, gap_y),
            r == (if key == Some(Key::Q) {
                Signal::Quit
            } else {
                Signal::Continue
            }),
            key == Some(Key::P) ==> final(self).wf(),
            key != Some(Key::P) ==> *final(self) == *old(self),
    {
        match key {
            Some(Key::P) => {
                self.restart(gap_y);
                Signal::Continue
            },
            Some(Key::Q) => Signal::Quit,
            _ => Signal::Continue,
        }
    }

    /// The menu's tick; see `wait_for_key`.
    pub fn main_menu(&mut self, key: Option<Key>, gap_y: i32) -> (r: Signal)
        requires
            old(self).wf(),
            old(self).mode == GameMode::Menu,
        ensures
            *final(self) == ticked(*old(self), key, 0, gap_y),
            r == signal_of(*old(self), key),
            final(self).wf(),
    {
        self.wait_for_key(key, gap_y)
    }

    /// The tick after the end, which keeps the score on show; see `wait_for_key`.
    pub fn dead(&mut self, key: Option<Key>, gap_y: i32) -> (r: Signal)
        requires
            old(self).wf(),
            old(self).mode == GameMode::End,
        ensures
            *final(self) == ticked(*old(self), key, 0, gap_y),
            r == signal_of(*old(self), key),
            final(self).wf(),
    {
        self.wait_for_key(key, gap_y)
    }

    /// One tick of whatever mode the session is in, with `key` the key pressed
    /// since the last tick, `elapsed` the microseconds since then, and `gap_y`
    /// the gap center for any wall created by this tick.
    pub fn tick_with_gap(&mut self, key: Option<Key>, elapsed: u32, gap_y: i32) -> (r: Signal)
        requires
            old(self).wf(),
            old(self).player.x < MAX_X,
        ensures
            *final(self) == ticked(*old(self), key, elapsed, gap_y),
            r == signal_of(*old(self), key),
            final(self).wf(),
    {
        match self.mode {
            GameMode::Menu => self.main_menu(key, gap_y),
            GameMode::End => self.dead(key, gap_y),
            GameMode::Playing => {
                self.play(key, elapsed, gap_y);
                Signal::Continue
            },
        }
    }

    /// One tick, any wall it creates having its gap centered at random.
    pub fn tick(&mut self, key: Option<Key>, elapsed: u32) -> (r: Signal)
        requires
            old(self).wf(),
            old(self).player.x < MAX_X,
        ensures
            GAP_CENTER_MIN <= final(self).obstacle.gap_y < GAP_CENTER_MAX || final(self).obstacle
                == old(self).obstacle,
            exists|g: i32|
                GAP_CENTER_MIN <= g < GAP_CENTER_MAX && *final(self) == ticked(
                    *old(self),
                    key,
                    elapsed,
                    g,
                ),
            r == signal_of(*old(self), key),
            final(self).wf(),
    {
        let gap_y = random_range(GAP_CENTER_MIN, GAP_CENTER_MAX);
        self.tick_with_gap(key, elapsed, gap_y)
    }
}

/// The session after a run of ticks, each given as key, elapsed time and gap center.
pub open spec fn ticked_all(s: State, events: Seq<(Option<Key>, u32, i32)>) -> State
    decreases events.len(),
{
    if events.len() == 0 {
        s
    } else {
        let e = events[0];
        ticked_all(ticked(s, e.0, e.1, e.2), events.drop_first())
    }
}

/// The larger of a column and the start column.
pub open spec fn at_least_start(x: int) -> int {
    if x < START_X {
        START_X as int
    } else {
        x
    }
}

/// A tick keeps the session's bounds and moves the player at most one column
/// beyond both where it was and the start.
pub proof fn tick_keeps_bounds(s: State, key: Option<Key>, elapsed: u32, gap_y: i32)
    requires
        s.wf(),
        s.player.x < MAX_X,
    ensures
        ticked(s, key, elapsed, gap_y).wf(),
        ticked(s, key, elapsed, gap_y).player.x <= at_least_start(s.player.x as int) + 1,
{
}

/// Over any run of ticks, steps and flaps, the session keeps its bounds and
/// the player's height never goes below 0.
pub proof fn height_stays_non_negative(s: State, events: Seq<(Option<Key>, u32, i32)>)
    requires
        s.wf(),
        at_least_start(s.player.x as int) + events.len() <= MAX_X,
    ensures
        ticked_all(s, events).wf(),
        ticked_all(s, events).player.y >= 0,
        ticked_all(s, events).player.x <= at_least_start(s.player.x as int) + events.len(),
    decreases events.len(),
{
    if events.len() > 0 {
        let e = events[0];
        tick_keeps_bounds(s, e.0, e.1, e.2);
        height_stays_non_negative(ticked(s, e.0, e.1, e.2), events.drop_first());
    }
}

/// Starting over after the end gives the very session that starting from a
/// fresh menu gives: score 0, the player at the start, a new first wall.
pub proof fn restart_is_fresh_start(ended: State, fresh_gap: i32, elapsed: u32, gap_y: i32)
    requires
        ended.mode == GameMode::End,
    ensures
        ticked(ended, Some(Key::P), elapsed, gap_y) == ticked(
            menu_state(fresh_gap),
            Some(Key::P),
            elapsed,
            gap_y,
        ),
        ticked(ended, Some(Key::P), elapsed, gap_y) == start_state(gap_y),
        ticked(ended, Some(Key::P), elapsed, gap_y).score == 0,
{
}

} // verus!
